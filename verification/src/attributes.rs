//! Attribute resolution: the layered color, radius and label policy for one
//! instance, with the highlight override for the hovered instance.

use vstd::prelude::*;
use crate::identity::InstanceIdentityHash;

verus! {

/// An sRGBA color, one byte per channel.
#[derive(Clone, Copy, PartialEq, Eq, Structural, Debug)]
pub struct Color {
    pub r: u8,
    pub g: u8,
    pub b: u8,
    pub a: u8,
}

/// The fixed color that replaces every other choice on the hovered instance.
pub open spec fn hover_color_spec() -> Color {
    Color { r: 255, g: 255, b: 255, a: 255 }
}

/// The fixed highlight color, as a value.
pub fn hover_color() -> (c: Color)
    ensures
        c == hover_color_spec(),
{
    Color { r: 255, g: 255, b: 255, a: 255 }
}

/// The display defaults configured for one class identifier.
pub struct ClassDescription {
    pub color: Option<Color>,
    pub label: Option<String>,
}

/// The per-entity mapping from class identifier to display defaults, looked
/// up once per instance. The first entry with a matching identifier wins.
pub struct AnnotationContext {
    pub classes: Vec<(u16, ClassDescription)>,
}

/// The first class description registered under `id`, if any.
pub open spec fn find_class(classes: Seq<(u16, ClassDescription)>, id: u16) -> Option<ClassDescription>
    decreases classes.len(),
{
    if classes.len() == 0 {
        Option::None
    } else if classes[0].0 == id {
        Option::Some(classes[0].1)
    } else {
        find_class(classes.drop_first(), id)
    }
}

/// The color configured for `class_id`, if a class id is given, registered,
/// and carries a color.
pub open spec fn class_color(ctx: AnnotationContext, class_id: Option<u16>) -> Option<Color> {
    match class_id {
        Option::Some(id) => match find_class(ctx.classes@, id) {
            Option::Some(desc) => desc.color,
            Option::None => Option::None,
        },
        Option::None => Option::None,
    }
}

/// The label configured for `class_id`, under the same lookup rule.
pub open spec fn class_label(ctx: AnnotationContext, class_id: Option<u16>) -> Option<Seq<char>> {
    match class_id {
        Option::Some(id) => match find_class(ctx.classes@, id) {
            Option::Some(desc) => match desc.label {
                Option::Some(l) => Option::Some(l@),
                Option::None => Option::None,
            },
            Option::None => Option::None,
        },
        Option::None => Option::None,
    }
}

/// The annotation-resolved color before the highlight override: the explicit
/// per-instance color if present, else the class's configured color if
/// present, else the entity's default-color policy.
pub open spec fn resolved_base_color(
    ctx: AnnotationContext,
    class_id: Option<u16>,
    raw_color: Option<Color>,
    default_color: Color,
) -> Color {
    match raw_color {
        Option::Some(c) => c,
        Option::None => match class_color(ctx, class_id) {
            Option::Some(c) => c,
            Option::None => default_color,
        },
    }
}

/// The text of an optional label.
pub open spec fn label_text(label: Option<String>) -> Option<Seq<char>> {
    match label {
        Option::Some(l) => Option::Some(l@),
        Option::None => Option::None,
    }
}

/// The annotation-resolved label: the explicit per-instance label if present,
/// else the class's configured label if present, else none.
pub open spec fn resolved_label(
    ctx: AnnotationContext,
    class_id: Option<u16>,
    raw_label: Option<Seq<char>>,
) -> Option<Seq<char>> {
    match raw_label {
        Option::Some(l) => Option::Some(l),
        Option::None => class_label(ctx, class_id),
    }
}

/// The source a display radius is taken from. `Auto` asks the renderer to
/// pick a visually consistent default; `HalfStroke` means the scene-space
/// radius is half the stored stroke width; `Scene` is a scene-space radius
/// as stored. The payloads are single-precision bit patterns.
#[derive(Clone, Copy, PartialEq, Eq, Structural, Debug)]
pub enum DisplayRadius {
    Auto,
    HalfStroke { stroke_bits: u32 },
    Scene { radius_bits: u32 },
}

/// A display radius together with the highlight boost flag. When `boosted`
/// is set the renderer enlarges the base radius by its fixed boost.
#[derive(Clone, Copy, PartialEq, Eq, Structural, Debug)]
pub struct ResolvedRadius {
    pub base: DisplayRadius,
    pub boosted: bool,
}

/// Whether the instance is the one currently hovered: its identity is not
/// the sentinel and equals the hovered identity.
pub open spec fn is_hover_match(id: InstanceIdentityHash, hovered: InstanceIdentityHash) -> bool {
    !(id is Missing) && id == hovered
}

/// The final color of one instance: the highlight constant when hovered,
/// else the layered resolution.
pub open spec fn resolved_color(
    ctx: AnnotationContext,
    class_id: Option<u16>,
    raw_color: Option<Color>,
    default_color: Color,
    id: InstanceIdentityHash,
    hovered: InstanceIdentityHash,
) -> Color {
    if is_hover_match(id, hovered) {
        hover_color_spec()
    } else {
        resolved_base_color(ctx, class_id, raw_color, default_color)
    }
}

/// The final radius of one instance: the raw source, boosted when hovered.
pub open spec fn resolved_radius(
    raw_radius: DisplayRadius,
    id: InstanceIdentityHash,
    hovered: InstanceIdentityHash,
) -> ResolvedRadius {
    ResolvedRadius { base: raw_radius, boosted: is_hover_match(id, hovered) }
}

/// The display attributes resolved for one instance.
pub struct ResolvedAttributes {
    pub color: Color,
    pub radius: ResolvedRadius,
    pub label: Option<String>,
}

impl AnnotationContext {
    /// The first class description registered under `id`, if any.
    pub fn lookup(&self, id: u16) -> (found: Option<&ClassDescription>)
        ensures
            match found {
                Option::Some(desc) => find_class(self.classes@, id) == Option::Some(*desc),
                Option::None => find_class(self.classes@, id) is None,
            },
    {
        let n: usize = self.classes.len();
        let mut i: usize = 0;
        assert(self.classes@.skip(0) =~= self.classes@);
        while i < n
            invariant
                i <= n,
                n == self.classes@.len(),
                find_class(self.classes@, id) == find_class(self.classes@.skip(i as int), id),
            decreases n - i,
        {
            if self.classes[i].0 == id {
                assert(self.classes@.skip(i as int)[0] == self.classes@[i as int]);
                return Option::Some(&self.classes[i].1);
            }
            assert(self.classes@.skip(i as int).drop_first() =~= self.classes@.skip(i + 1));
            i = i + 1;
        }
        assert(self.classes@.skip(i as int).len() == 0);
        Option::None
    }
}

/// Resolve the display attributes of one instance: the layered color policy,
/// the radius source, the annotation-resolved label, and the highlight
/// override when the instance is the hovered one.
pub fn resolve_attributes(
    ctx: &AnnotationContext,
    class_id: Option<u16>,
    raw_color: Option<Color>,
    raw_radius: DisplayRadius,
    raw_label: &Option<String>,
    default_color: Color,
    id: InstanceIdentityHash,
    hovered: InstanceIdentityHash,
) -> (r: ResolvedAttributes)
    ensures
        r.color == resolved_color(*ctx, class_id, raw_color, default_color, id, hovered),
        r.radius == resolved_radius(raw_radius, id, hovered),
        label_text(r.label) == resolved_label(*ctx, class_id, label_text(*raw_label)),
{
    let hovering: bool = match id {
        InstanceIdentityHash::Missing => false,
        InstanceIdentityHash::Keyed { .. } => id == hovered,
    };

    let found: Option<&ClassDescription> = match class_id {
        Option::Some(cid) => ctx.lookup(cid),
        Option::None => Option::None,
    };

    let color: Color = if hovering {
        hover_color()
    } else {
        match raw_color {
            Option::Some(c) => c,
            Option::None => match found {
                Option::Some(desc) => match desc.color {
                    Option::Some(c) => c,
                    Option::None => default_color,
                },
                Option::None => default_color,
            },
        }
    };

    let label: Option<String> = match raw_label {
        Option::Some(l) => Option::Some(l.clone()),
        Option::None => match found {
            Option::Some(desc) => match &desc.label {
                Option::Some(l) => Option::Some(l.clone()),
                Option::None => Option::None,
            },
            Option::None => Option::None,
        },
    };

    ResolvedAttributes {
        color,
        radius: ResolvedRadius { base: raw_radius, boosted: hovering },
        label,
    }
}

/// Law: attribute precedence. Without a per-instance color the class color
/// wins over the default policy; a per-instance color wins over both; and a
/// hover match replaces any of them with the highlight constant.
pub proof fn lemma_color_precedence(
    ctx: AnnotationContext,
    class_id: Option<u16>,
    raw_color: Option<Color>,
    default_color: Color,
    id: InstanceIdentityHash,
    hovered: InstanceIdentityHash,
)
    ensures
        raw_color is None && class_color(ctx, class_id) is Some && !is_hover_match(id, hovered)
            ==> resolved_color(ctx, class_id, raw_color, default_color, id, hovered)
                == class_color(ctx, class_id)->0,
        raw_color is Some && !is_hover_match(id, hovered)
            ==> resolved_color(ctx, class_id, raw_color, default_color, id, hovered) == raw_color->0,
        raw_color is None && class_color(ctx, class_id) is None && !is_hover_match(id, hovered)
            ==> resolved_color(ctx, class_id, raw_color, default_color, id, hovered) == default_color,
        is_hover_match(id, hovered)
            ==> resolved_color(ctx, class_id, raw_color, default_color, id, hovered)
                == hover_color_spec(),
{
}

/// Law: the highlight override also sets the radius boost, and only a hover
/// match does; the base radius source is never changed by resolution.
pub proof fn lemma_hover_boost(
    raw_radius: DisplayRadius,
    id: InstanceIdentityHash,
    hovered: InstanceIdentityHash,
)
    ensures
        resolved_radius(raw_radius, id, hovered).base == raw_radius,
        resolved_radius(raw_radius, id, hovered).boosted == is_hover_match(id, hovered),
        id is Missing ==> !resolved_radius(raw_radius, id, hovered).boosted,
{
}

} // verus!
