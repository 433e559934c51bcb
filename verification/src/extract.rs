//! The per-frame extraction pipeline: reachability gating, per-entity line
//! batches, label anchors, the logged-object counter, and per-entity query
//! error logging — for both store representations.

use vstd::prelude::*;
use crate::attributes::{label_text, AnnotationContext, Color, ResolvedRadius, resolved_color, resolved_label, resolved_radius};
use crate::geometry::{Point3, edge_corners, transformed_box_segments};
use crate::identity::{EntityPath, InstanceIdentityHash, identity, identity_spec};
use crate::rows::BoxInstance;

verus! {

/// A 4x4 world-from-entity matrix, sixteen single-precision bit patterns in
/// column-major order. The batch stores it for the renderer's information;
/// segment corners are handed in already placed.
#[derive(Clone, Copy, Debug)]
pub struct TransformMatrix {
    pub elements: [u32; 16],
}

/// What the transform resolver answered for one entity: its world transform,
/// or that the entity has no path to the scene root.
#[derive(Clone, Copy, Debug)]
pub enum TransformResolution {
    Reachable { world_from_entity: TransformMatrix },
    Unreachable,
}

/// One instance ready for drawing: the normalized instance, the eight box
/// corners already taken through the instance transform by the caller, and
/// the world-space point a label for this instance anchors at.
pub struct PreparedRow {
    pub instance: BoxInstance,
    pub corners: [Point3; 8],
    pub label_origin: Point3,
}

/// One line segment as appended to a batch: two endpoints with the resolved
/// radius, color and instance identity.
#[derive(Clone, Copy, PartialEq, Eq, Structural, Debug)]
pub struct SegmentRecord {
    pub start: Point3,
    pub end: Point3,
    pub radius: ResolvedRadius,
    pub color: Color,
    pub identity: InstanceIdentityHash,
}

/// A named group of segments sharing one world transform, one per entity.
pub struct LineBatch {
    pub name: String,
    pub world_from_entity: TransformMatrix,
    pub segments: Vec<SegmentRecord>,
}

/// A text label anchored at a world-space point.
pub struct LabelAnchor {
    pub text: String,
    pub origin: Point3,
}

/// One query failure, logged once for the entity it hit.
pub struct QueryLogEvent {
    pub entity_path: EntityPath,
    pub detail: String,
}

/// The shared per-frame scene accumulator.
pub struct SceneOutput {
    pub batches: Vec<LineBatch>,
    pub labels: Vec<LabelAnchor>,
    pub num_logged_objects: u64,
    pub query_errors: Vec<QueryLogEvent>,
}

/// Spec-level value of a `LineBatch`.
#[verifier::ext_equal]
pub struct BatchSpec {
    pub name: Seq<char>,
    pub world_from_entity: TransformMatrix,
    pub segments: Seq<SegmentRecord>,
}

/// Spec-level value of a `LabelAnchor`.
#[verifier::ext_equal]
pub struct LabelSpec {
    pub text: Seq<char>,
    pub origin: Point3,
}

/// Spec-level value of a `QueryLogEvent`.
#[verifier::ext_equal]
pub struct ErrorSpec {
    pub entity_path: Seq<char>,
    pub detail: Seq<char>,
}

/// Spec-level value of the scene accumulator.
#[verifier::ext_equal]
pub struct SceneSpec {
    pub batches: Seq<BatchSpec>,
    pub labels: Seq<LabelSpec>,
    pub num_logged_objects: int,
    pub query_errors: Seq<ErrorSpec>,
}

impl View for LineBatch {
    type V = BatchSpec;

    open spec fn view(&self) -> BatchSpec {
        BatchSpec {
            name: self.name@,
            world_from_entity: self.world_from_entity,
            segments: self.segments@,
        }
    }
}

impl View for LabelAnchor {
    type V = LabelSpec;

    open spec fn view(&self) -> LabelSpec {
        LabelSpec { text: self.text@, origin: self.origin }
    }
}

impl View for QueryLogEvent {
    type V = ErrorSpec;

    open spec fn view(&self) -> ErrorSpec {
        ErrorSpec { entity_path: self.entity_path.name@, detail: self.detail@ }
    }
}

impl View for SceneOutput {
    type V = SceneSpec;

    open spec fn view(&self) -> SceneSpec {
        SceneSpec {
            batches: self.batches@.map_values(|b: LineBatch| b@),
            labels: self.labels@.map_values(|l: LabelAnchor| l@),
            num_logged_objects: self.num_logged_objects as int,
            query_errors: self.query_errors@.map_values(|e: QueryLogEvent| e@),
        }
    }
}

impl SceneOutput {
    /// A fresh accumulator for one frame.
    pub fn new() -> (out: SceneOutput)
        ensures
            out@.batches.len() == 0,
            out@.labels.len() == 0,
            out@.num_logged_objects == 0,
            out@.query_errors.len() == 0,
    {
        SceneOutput {
            batches: Vec::new(),
            labels: Vec::new(),
            num_logged_objects: 0,
            query_errors: Vec::new(),
        }
    }
}

/// Everything about one entity that attribute and identity resolution read:
/// its path, its interactivity flag, its annotation context, and its
/// default-color policy.
pub struct EntityContext {
    pub path: EntityPath,
    pub interactive: bool,
    pub annotations: AnnotationContext,
    pub default_color: Color,
}

/// The identity of one prepared row within its entity.
pub open spec fn row_identity(ctx: EntityContext, row: PreparedRow) -> InstanceIdentityHash {
    identity_spec(ctx.path, row.instance.instance_key, ctx.interactive)
}

/// Segment `k` of one prepared row: edge `k` of its corners, with the
/// resolved attributes and identity.
pub open spec fn row_segment(
    ctx: EntityContext,
    row: PreparedRow,
    hovered: InstanceIdentityHash,
    k: int,
) -> SegmentRecord {
    SegmentRecord {
        start: row.corners@[edge_corners(k).0],
        end: row.corners@[edge_corners(k).1],
        radius: resolved_radius(row.instance.radius, row_identity(ctx, row), hovered),
        color: resolved_color(
            ctx.annotations,
            row.instance.class_id,
            row.instance.color,
            ctx.default_color,
            row_identity(ctx, row),
            hovered,
        ),
        identity: row_identity(ctx, row),
    }
}

/// The twelve segments one prepared row contributes.
pub open spec fn row_segments(
    ctx: EntityContext,
    row: PreparedRow,
    hovered: InstanceIdentityHash,
) -> Seq<SegmentRecord> {
    Seq::new(12, |k: int| row_segment(ctx, row, hovered, k))
}

/// All segments a row sequence contributes, in row order.
pub open spec fn entity_segments(
    ctx: EntityContext,
    rows: Seq<PreparedRow>,
    hovered: InstanceIdentityHash,
) -> Seq<SegmentRecord>
    decreases rows.len(),
{
    if rows.len() == 0 {
        Seq::empty()
    } else {
        entity_segments(ctx, rows.drop_last(), hovered) + row_segments(ctx, rows.last(), hovered)
    }
}

/// The label one prepared row contributes, if its label resolves to text.
/// The highlight override never touches labels.
pub open spec fn row_label(ctx: EntityContext, row: PreparedRow) -> Option<LabelSpec> {
    match resolved_label(ctx.annotations, row.instance.class_id, label_text(row.instance.label)) {
        Option::Some(text) => Option::Some(LabelSpec { text, origin: row.label_origin }),
        Option::None => Option::None,
    }
}

/// All labels a row sequence contributes, in row order.
pub open spec fn entity_labels(ctx: EntityContext, rows: Seq<PreparedRow>) -> Seq<LabelSpec>
    decreases rows.len(),
{
    if rows.len() == 0 {
        Seq::empty()
    } else {
        entity_labels(ctx, rows.drop_last()) + match row_label(ctx, rows.last()) {
            Option::Some(l) => seq![l],
            Option::None => Seq::empty(),
        }
    }
}

/// The batch one entity contributes: the fixed batch name, its world
/// transform, and its rows' segments.
pub open spec fn entity_batch(
    ctx: EntityContext,
    world_from_entity: TransformMatrix,
    rows: Seq<PreparedRow>,
    hovered: InstanceIdentityHash,
) -> BatchSpec {
    BatchSpec {
        name: "box 3d"@,
        world_from_entity,
        segments: entity_segments(ctx, rows, hovered),
    }
}

/// What processing one reachable entity's rows does to the scene: one batch
/// appended, the rows' labels appended, the counter up by exactly one —
/// whatever the instance count — and the error log untouched.
pub open spec fn apply_rows(
    s: SceneSpec,
    ctx: EntityContext,
    world_from_entity: TransformMatrix,
    rows: Seq<PreparedRow>,
    hovered: InstanceIdentityHash,
) -> SceneSpec {
    SceneSpec {
        batches: s.batches.push(entity_batch(ctx, world_from_entity, rows, hovered)),
        labels: s.labels + entity_labels(ctx, rows),
        num_logged_objects: s.num_logged_objects + 1,
        query_errors: s.query_errors,
    }
}

/// Appending one row extends an entity's segments by that row's twelve.
pub proof fn lemma_entity_segments_push(
    ctx: EntityContext,
    rows: Seq<PreparedRow>,
    row: PreparedRow,
    hovered: InstanceIdentityHash,
)
    ensures
        entity_segments(ctx, rows.push(row), hovered) == entity_segments(ctx, rows, hovered)
            + row_segments(ctx, row, hovered),
{
    assert(rows.push(row).drop_last() =~= rows);
    assert(rows.push(row).last() == row);
}

/// Appending one row extends an entity's labels by that row's label, if any.
pub proof fn lemma_entity_labels_push(ctx: EntityContext, rows: Seq<PreparedRow>, row: PreparedRow)
    ensures
        entity_labels(ctx, rows.push(row)) == entity_labels(ctx, rows) + match row_label(ctx, row) {
            Option::Some(l) => seq![l],
            Option::None => Seq::<LabelSpec>::empty(),
        },
{
    assert(rows.push(row).drop_last() =~= rows);
    assert(rows.push(row).last() == row);
}

/// Process the prepared rows of one reachable entity: count it, resolve each
/// row's identity and attributes, append its twelve edge segments to a fresh
/// batch, and append a label anchor for each row whose label resolved.
pub fn process_instance_rows(
    ctx: &EntityContext,
    world_from_entity: TransformMatrix,
    rows: &Vec<PreparedRow>,
    hovered: InstanceIdentityHash,
    out: &mut SceneOutput,
)
    requires
        old(out).num_logged_objects < u64::MAX,
    ensures
        final(out)@ == apply_rows(old(out)@, *ctx, world_from_entity, rows@, hovered),
{
    out.num_logged_objects = out.num_logged_objects + 1;
    let mut segments: Vec<SegmentRecord> = Vec::new();
    let n: usize = rows.len();
    let mut i: usize = 0;
    while i < n
        invariant
            i <= n,
            n == rows@.len(),
            out.num_logged_objects == old(out).num_logged_objects + 1,
            out.batches@ == old(out).batches@,
            out.query_errors@ == old(out).query_errors@,
            segments@ == entity_segments(*ctx, rows@.take(i as int), hovered),
            out.labels@.map_values(|l: LabelAnchor| l@) =~= old(out)@.labels + entity_labels(
                *ctx,
                rows@.take(i as int),
            ),
        decreases n - i,
    {
        let row = &rows[i];
        let id: InstanceIdentityHash = identity(&ctx.path, row.instance.instance_key, ctx.interactive);
        let attrs = crate::attributes::resolve_attributes(
            &ctx.annotations,
            row.instance.class_id,
            row.instance.color,
            row.instance.radius,
            &row.instance.label,
            ctx.default_color,
            id,
            hovered,
        );
        let segs12: Vec<(Point3, Point3)> = transformed_box_segments(&row.corners);
        let ghost seg_spec: Seq<SegmentRecord> = row_segments(*ctx, rows@[i as int], hovered);
        let ghost segments_before: Seq<SegmentRecord> = segments@;
        let mut k: usize = 0;
        while k < 12
            invariant
                k <= 12,
                segs12@.len() == 12,
                forall|m: int|
                    0 <= m < 12 ==> #[trigger] segs12@[m] == (
                        rows@[i as int].corners@[edge_corners(m).0],
                        rows@[i as int].corners@[edge_corners(m).1],
                    ),
                i < rows@.len(),
                seg_spec == row_segments(*ctx, rows@[i as int], hovered),
                id == row_identity(*ctx, rows@[i as int]),
                attrs.radius == resolved_radius(rows@[i as int].instance.radius, id, hovered),
                attrs.color == resolved_color(
                    ctx.annotations,
                    rows@[i as int].instance.class_id,
                    rows@[i as int].instance.color,
                    ctx.default_color,
                    id,
                    hovered,
                ),
                segments@ == segments_before + seg_spec.take(k as int),
            decreases 12 - k,
        {
            let pair: (Point3, Point3) = segs12[k];
            let record = SegmentRecord {
                start: pair.0,
                end: pair.1,
                radius: attrs.radius,
                color: attrs.color,
                identity: id,
            };
            proof {
                assert(seg_spec[k as int] == row_segment(*ctx, rows@[i as int], hovered, k as int));
                assert(record == seg_spec[k as int]);
                assert(seg_spec.take(k + 1) =~= seg_spec.take(k as int).push(seg_spec[k as int]));
            }
            segments.push(record);
            k = k + 1;
        }
        proof {
            assert(seg_spec.take(12) =~= seg_spec);
            assert(rows@.take(i + 1) =~= rows@.take(i as int).push(rows@[i as int]));
            lemma_entity_segments_push(*ctx, rows@.take(i as int), rows@[i as int], hovered);
            lemma_entity_labels_push(*ctx, rows@.take(i as int), rows@[i as int]);
        }
        let ghost labels_prev_view: Seq<LabelSpec> = out.labels@.map_values(|l: LabelAnchor| l@);
        match attrs.label {
            Option::Some(text) => {
                proof {
                    assert(resolved_label(
                        ctx.annotations,
                        rows@[i as int].instance.class_id,
                        label_text(rows@[i as int].instance.label),
                    ) == Option::Some(text@));
                    assert(row_label(*ctx, rows@[i as int]) == Option::Some(
                        LabelSpec { text: text@, origin: rows@[i as int].label_origin },
                    ));
                }
                out.labels.push(LabelAnchor { text, origin: row.label_origin });
                proof {
                    assert(out.labels@.last()@ == row_label(*ctx, rows@[i as int])->0);
                    assert(out.labels@.map_values(|l: LabelAnchor| l@) =~= labels_prev_view.push(
                        out.labels@.last()@,
                    ));
                }
            },
            Option::None => {
                proof {
                    assert(row_label(*ctx, rows@[i as int]) is None);
                }
            },
        }
        proof {
            assert(out.labels@.map_values(|l: LabelAnchor| l@) =~= old(out)@.labels
                + entity_labels(*ctx, rows@.take(i + 1)));
        }
        i = i + 1;
    }
    let batch = LineBatch {
        name: "box 3d".to_string(),
        world_from_entity,
        segments,
    };
    out.batches.push(batch);
    proof {
        assert(rows@.take(n as int) =~= rows@);
        assert(out.batches@.last()@ =~= entity_batch(*ctx, world_from_entity, rows@, hovered));
        assert(out@.batches =~= old(out)@.batches.push(
            entity_batch(*ctx, world_from_entity, rows@, hovered),
        ));
        assert(out@.labels =~= old(out)@.labels + entity_labels(*ctx, rows@));
        assert(out@.query_errors =~= old(out)@.query_errors);
        assert(out@ =~= apply_rows(old(out)@, *ctx, world_from_entity, rows@, hovered));
    }
}

/// One entity's input on the legacy path: its context, its transform
/// resolution, and the rows the per-object store yielded for it.
pub struct LegacyEntityInput {
    pub ctx: EntityContext,
    pub transform: TransformResolution,
    pub rows: Vec<PreparedRow>,
}

/// What one legacy entity does to the scene: nothing when its transform is
/// unreachable, else one counted batch with its rows' segments and labels.
pub open spec fn apply_legacy_entity(
    s: SceneSpec,
    e: LegacyEntityInput,
    hovered: InstanceIdentityHash,
) -> SceneSpec {
    match e.transform {
        TransformResolution::Unreachable => s,
        TransformResolution::Reachable { world_from_entity } => apply_rows(
            s,
            e.ctx,
            world_from_entity,
            e.rows@,
            hovered,
        ),
    }
}

/// The legacy entities applied in order.
pub open spec fn apply_legacy_entities(
    s: SceneSpec,
    entities: Seq<LegacyEntityInput>,
    hovered: InstanceIdentityHash,
) -> SceneSpec
    decreases entities.len(),
{
    if entities.len() == 0 {
        s
    } else {
        apply_legacy_entity(
            apply_legacy_entities(s, entities.drop_last(), hovered),
            entities.last(),
            hovered,
        )
    }
}

/// The counter moves by at most one per legacy entity.
pub proof fn lemma_legacy_counter_bound(
    s: SceneSpec,
    entities: Seq<LegacyEntityInput>,
    hovered: InstanceIdentityHash,
)
    ensures
        s.num_logged_objects <= apply_legacy_entities(s, entities, hovered).num_logged_objects
            <= s.num_logged_objects + entities.len(),
    decreases entities.len(),
{
    if entities.len() > 0 {
        lemma_legacy_counter_bound(s, entities.drop_last(), hovered);
    }
}

/// The materialized result of one successful columnar "latest at" query:
/// its joined rows, prepared for drawing.
pub struct EntityView {
    pub rows: Vec<PreparedRow>,
}

/// How one columnar query ended: a materialized view, the normal empty
/// "primary component not found" case, or a genuine store fault.
pub enum ColumnarQueryResult {
    View { entity_view: EntityView },
    PrimaryNotFound,
    Fault { detail: String },
}

/// One entity's input on the columnar path.
pub struct ColumnarEntityInput {
    pub ctx: EntityContext,
    pub transform: TransformResolution,
    pub result: ColumnarQueryResult,
}

/// What one columnar entity does to the scene: nothing when unreachable;
/// with a view, one counted batch; nothing when the primary component is
/// missing; and exactly one logged error, with no output, on a fault.
pub open spec fn apply_columnar_entity(
    s: SceneSpec,
    e: ColumnarEntityInput,
    hovered: InstanceIdentityHash,
) -> SceneSpec {
    match e.transform {
        TransformResolution::Unreachable => s,
        TransformResolution::Reachable { world_from_entity } => match e.result {
            ColumnarQueryResult::View { entity_view } => apply_rows(
                s,
                e.ctx,
                world_from_entity,
                entity_view.rows@,
                hovered,
            ),
            ColumnarQueryResult::PrimaryNotFound => s,
            ColumnarQueryResult::Fault { detail } => SceneSpec {
                query_errors: s.query_errors.push(
                    ErrorSpec { entity_path: e.ctx.path.name@, detail: detail@ },
                ),
                ..s
            },
        },
    }
}

/// The columnar entities applied in order.
pub open spec fn apply_columnar_entities(
    s: SceneSpec,
    entities: Seq<ColumnarEntityInput>,
    hovered: InstanceIdentityHash,
) -> SceneSpec
    decreases entities.len(),
{
    if entities.len() == 0 {
        s
    } else {
        apply_columnar_entity(
            apply_columnar_entities(s, entities.drop_last(), hovered),
            entities.last(),
            hovered,
        )
    }
}

/// The counter moves by at most one per columnar entity.
pub proof fn lemma_columnar_counter_bound(
    s: SceneSpec,
    entities: Seq<ColumnarEntityInput>,
    hovered: InstanceIdentityHash,
)
    ensures
        s.num_logged_objects <= apply_columnar_entities(s, entities, hovered).num_logged_objects
            <= s.num_logged_objects + entities.len(),
    decreases entities.len(),
{
    if entities.len() > 0 {
        lemma_columnar_counter_bound(s, entities.drop_last(), hovered);
    }
}

/// The legacy extraction strategy: one batch per reachable entity, fed by
/// the per-object store's joined rows.
pub struct Boxes3DPartClassic;

impl Boxes3DPartClassic {
    /// Extract one entity. An unreachable transform skips it entirely: no
    /// segments, no labels, no counter increment.
    pub fn load_entity(
        &self,
        input: &LegacyEntityInput,
        hovered: InstanceIdentityHash,
        out: &mut SceneOutput,
    )
        requires
            old(out).num_logged_objects < u64::MAX,
        ensures
            final(out)@ == apply_legacy_entity(old(out)@, *input, hovered),
    {
        match input.transform {
            TransformResolution::Unreachable => {},
            TransformResolution::Reachable { world_from_entity } => {
                process_instance_rows(&input.ctx, world_from_entity, &input.rows, hovered, out);
            },
        }
    }

    /// Extract one frame's entities in order.
    pub fn load(
        &self,
        entities: &Vec<LegacyEntityInput>,
        hovered: InstanceIdentityHash,
        out: &mut SceneOutput,
    )
        requires
            old(out)@.num_logged_objects + entities@.len() <= u64::MAX,
        ensures
            final(out)@ == apply_legacy_entities(old(out)@, entities@, hovered),
    {
        let n: usize = entities.len();
        let mut i: usize = 0;
        while i < n
            invariant
                i <= n,
                n == entities@.len(),
                old(out)@.num_logged_objects + entities@.len() <= u64::MAX,
                out@ == apply_legacy_entities(old(out)@, entities@.take(i as int), hovered),
            decreases n - i,
        {
            proof {
                lemma_legacy_counter_bound(old(out)@, entities@.take(i as int), hovered);
            }
            self.load_entity(&entities[i], hovered, out);
            proof {
                assert(entities@.take(i + 1).drop_last() =~= entities@.take(i as int));
                assert(entities@.take(i + 1).last() == entities@[i as int]);
            }
            i = i + 1;
        }
        proof {
            assert(entities@.take(n as int) =~= entities@);
        }
    }
}

/// The columnar extraction strategy: one "latest at" query per entity, its
/// materialized view fed to the same row pipeline as the legacy path.
pub struct Boxes3DPart;

impl Boxes3DPart {
    /// Process one materialized entity view: count the entity once, before
    /// its rows, then append its segments and labels.
    pub fn process_entity_view(
        ctx: &EntityContext,
        entity_view: &EntityView,
        world_from_entity: TransformMatrix,
        hovered: InstanceIdentityHash,
        out: &mut SceneOutput,
    )
        requires
            old(out).num_logged_objects < u64::MAX,
        ensures
            final(out)@ == apply_rows(old(out)@, *ctx, world_from_entity, entity_view.rows@, hovered),
    {
        process_instance_rows(ctx, world_from_entity, &entity_view.rows, hovered, out);
    }

    /// Extract one entity from its query outcome. An unreachable transform
    /// skips everything; a missing primary component is the normal empty
    /// case, with no output and no log entry; a genuine fault logs exactly
    /// one event for this entity and contributes no output.
    pub fn load_entity(
        &self,
        input: &ColumnarEntityInput,
        hovered: InstanceIdentityHash,
        out: &mut SceneOutput,
    )
        requires
            old(out).num_logged_objects < u64::MAX,
        ensures
            final(out)@ == apply_columnar_entity(old(out)@, *input, hovered),
    {
        match input.transform {
            TransformResolution::Unreachable => {},
            TransformResolution::Reachable { world_from_entity } => match &input.result {
                ColumnarQueryResult::View { entity_view } => {
                    Self::process_entity_view(&input.ctx, entity_view, world_from_entity, hovered, out);
                },
                ColumnarQueryResult::PrimaryNotFound => {},
                ColumnarQueryResult::Fault { detail } => {
                    let event = QueryLogEvent {
                        entity_path: EntityPath { name: input.ctx.path.name.clone() },
                        detail: detail.clone(),
                    };
                    out.query_errors.push(event);
                    proof {
                        assert(out@.query_errors =~= old(out)@.query_errors.push(
                            ErrorSpec { entity_path: input.ctx.path.name@, detail: detail@ },
                        ));
                        assert(out@ =~= apply_columnar_entity(old(out)@, *input, hovered));
                    }
                },
            },
        }
    }

    /// Extract one frame's entities in order.
    pub fn load(
        &self,
        entities: &Vec<ColumnarEntityInput>,
        hovered: InstanceIdentityHash,
        out: &mut SceneOutput,
    )
        requires
            old(out)@.num_logged_objects + entities@.len() <= u64::MAX,
        ensures
            final(out)@ == apply_columnar_entities(old(out)@, entities@, hovered),
    {
        let n: usize = entities.len();
        let mut i: usize = 0;
        while i < n
            invariant
                i <= n,
                n == entities@.len(),
                old(out)@.num_logged_objects + entities@.len() <= u64::MAX,
                out@ == apply_columnar_entities(old(out)@, entities@.take(i as int), hovered),
            decreases n - i,
        {
            proof {
                lemma_columnar_counter_bound(old(out)@, entities@.take(i as int), hovered);
            }
            self.load_entity(&entities[i], hovered, out);
            proof {
                assert(entities@.take(i + 1).drop_last() =~= entities@.take(i as int));
                assert(entities@.take(i + 1).last() == entities@[i as int]);
            }
            i = i + 1;
        }
        proof {
            assert(entities@.take(n as int) =~= entities@);
        }
    }
}

/// Law: reachability gating on the legacy path. An entity whose transform
/// is unreachable contributes zero segments, zero labels, no counter
/// increment and no log entry.
pub proof fn lemma_unreachable_skips_entity_legacy(
    s: SceneSpec,
    e: LegacyEntityInput,
    hovered: InstanceIdentityHash,
)
    requires
        e.transform is Unreachable,
    ensures
        apply_legacy_entity(s, e, hovered) == s,
{
}

/// Law: reachability gating on the columnar path, whatever the query
/// outcome — even a fault is not logged for an unreachable entity, because
/// the query is never issued.
pub proof fn lemma_unreachable_skips_entity_columnar(
    s: SceneSpec,
    e: ColumnarEntityInput,
    hovered: InstanceIdentityHash,
)
    requires
        e.transform is Unreachable,
    ensures
        apply_columnar_entity(s, e, hovered) == s,
{
}

/// Law: missing primary data is not an error. A reachable entity whose
/// query answered "primary component not found" produces zero output and
/// zero log entries.
pub proof fn lemma_primary_not_found_is_silent(
    s: SceneSpec,
    e: ColumnarEntityInput,
    hovered: InstanceIdentityHash,
)
    requires
        e.result is PrimaryNotFound,
    ensures
        apply_columnar_entity(s, e, hovered) == s,
{
}

/// Law: a genuine query fault on a reachable entity logs exactly one event,
/// carrying that entity's path, and contributes no segments, no labels and
/// no counter increment.
pub proof fn lemma_fault_logs_exactly_once(
    s: SceneSpec,
    e: ColumnarEntityInput,
    hovered: InstanceIdentityHash,
)
    requires
        e.transform is Reachable,
        e.result is Fault,
    ensures
        apply_columnar_entity(s, e, hovered).batches == s.batches,
        apply_columnar_entity(s, e, hovered).labels == s.labels,
        apply_columnar_entity(s, e, hovered).num_logged_objects == s.num_logged_objects,
        apply_columnar_entity(s, e, hovered).query_errors == s.query_errors.push(
            ErrorSpec { entity_path: e.ctx.path.name@, detail: e.result->detail@ },
        ),
{
}

/// Law: batches decompose by instance. A row sequence contributes exactly
/// twelve segments per row, in row order, and segment `j` carries the
/// identity and attributes of row `j / 12` — so every emitted segment
/// belongs to exactly one instance.
pub proof fn lemma_segments_decompose_by_row(
    ctx: EntityContext,
    rows: Seq<PreparedRow>,
    hovered: InstanceIdentityHash,
)
    ensures
        entity_segments(ctx, rows, hovered).len() == 12 * rows.len(),
        forall|j: int|
            0 <= j < 12 * rows.len() ==> #[trigger] entity_segments(ctx, rows, hovered)[j]
                == row_segment(ctx, rows[j / 12], hovered, j % 12),
    decreases rows.len(),
{
    if rows.len() > 0 {
        let n = rows.len() as int;
        lemma_segments_decompose_by_row(ctx, rows.drop_last(), hovered);
        assert forall|j: int| 0 <= j < 12 * n implies #[trigger] entity_segments(
            ctx,
            rows,
            hovered,
        )[j] == row_segment(ctx, rows[j / 12], hovered, j % 12) by {
            if j < 12 * (n - 1) {
                assert(j / 12 < n - 1) by (nonlinear_arith)
                    requires 0 <= j && j < 12 * (n - 1);
                assert(rows.drop_last()[j / 12] == rows[j / 12]);
            } else {
                assert(j / 12 == n - 1 && j % 12 == j - 12 * (n - 1)) by (nonlinear_arith)
                    requires 12 * (n - 1) <= j && j < 12 * n;
                assert(entity_segments(ctx, rows, hovered)[j] == row_segments(
                    ctx,
                    rows.last(),
                    hovered,
                )[j - 12 * (n - 1)]);
            }
        }
    }
}

/// Law: labels decompose by instance too. A row contributes at most one
/// label anchor, so an entity never emits more labels than rows.
pub proof fn lemma_at_most_one_label_per_row(ctx: EntityContext, rows: Seq<PreparedRow>)
    ensures
        entity_labels(ctx, rows).len() <= rows.len(),
    decreases rows.len(),
{
    if rows.len() > 0 {
        lemma_at_most_one_label_per_row(ctx, rows.drop_last());
    }
}

/// Law: the highlight override changes color and radius only. A segment's
/// endpoints and its identity do not depend on who is hovered.
pub proof fn lemma_hover_changes_only_color_and_radius(
    ctx: EntityContext,
    row: PreparedRow,
    hovered_a: InstanceIdentityHash,
    hovered_b: InstanceIdentityHash,
    k: int,
)
    ensures
        row_segment(ctx, row, hovered_a, k).start == row_segment(ctx, row, hovered_b, k).start,
        row_segment(ctx, row, hovered_a, k).end == row_segment(ctx, row, hovered_b, k).end,
        row_segment(ctx, row, hovered_a, k).identity == row_segment(ctx, row, hovered_b, k).identity,
{
}

/// Law: the two iteration strategies are interchangeable. For the same
/// entity context, the same transform resolution and the same prepared rows,
/// the legacy path and the columnar path make the same change to the scene.
pub proof fn lemma_strategies_agree(
    s: SceneSpec,
    legacy: LegacyEntityInput,
    columnar: ColumnarEntityInput,
    hovered: InstanceIdentityHash,
)
    requires
        legacy.ctx == columnar.ctx,
        legacy.transform == columnar.transform,
        columnar.result is View,
        columnar.result->entity_view.rows@ == legacy.rows@,
    ensures
        apply_legacy_entity(s, legacy, hovered) == apply_columnar_entity(s, columnar, hovered),
{
}

/// Law: the counter counts entities, not instances. A reachable legacy
/// entity moves the counter by exactly one whatever its row count, and an
/// unreachable one not at all.
pub proof fn lemma_counter_counts_entities(
    s: SceneSpec,
    e: LegacyEntityInput,
    hovered: InstanceIdentityHash,
)
    ensures
        e.transform is Reachable ==> apply_legacy_entity(s, e, hovered).num_logged_objects
            == s.num_logged_objects + 1,
        e.transform is Unreachable ==> apply_legacy_entity(s, e, hovered).num_logged_objects
            == s.num_logged_objects,
{
}

} // verus!
