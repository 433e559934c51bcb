//! Row normalization: the two store representations — the legacy per-object
//! store's combined box-with-pose record and the columnar store's split
//! position and rotation components — folded into one `BoxInstance` shape
//! that the rest of the pipeline reads.

use vstd::prelude::*;
use crate::attributes::{label_text, Color, DisplayRadius};
use crate::geometry::Point3;

verus! {

/// A rotation, stored as the four single-precision bit patterns of a
/// quaternion's x, y, z and w components.
#[derive(Clone, Copy, PartialEq, Eq, Structural, Debug)]
pub struct Quaternion {
    pub x: u32,
    pub y: u32,
    pub z: u32,
    pub w: u32,
}

/// Bit pattern of 1.0, the w component of the identity quaternion.
pub const ONE_BITS: u32 = 0x3F80_0000;

/// Bit pattern of 0.0.
pub const ZERO_BITS: u32 = 0x0000_0000;

/// The identity rotation.
pub open spec fn identity_quaternion() -> Quaternion {
    Quaternion { x: ZERO_BITS, y: ZERO_BITS, z: ZERO_BITS, w: ONE_BITS }
}

/// The origin.
pub open spec fn zero_point() -> Point3 {
    Point3 { x: ZERO_BITS, y: ZERO_BITS, z: ZERO_BITS }
}

/// One logical box instance, normalized: the shape pose with defaults
/// applied, and the optional display attributes as the store gave them.
pub struct BoxInstance {
    pub half_extent: Point3,
    pub rotation: Quaternion,
    pub translation: Point3,
    pub color: Option<Color>,
    pub radius: DisplayRadius,
    pub label: Option<String>,
    pub class_id: Option<u16>,
    pub instance_key: Option<u64>,
}

/// The spec-level value of a `BoxInstance`, with the label as text.
pub struct BoxInstanceSpec {
    pub half_extent: Point3,
    pub rotation: Quaternion,
    pub translation: Point3,
    pub color: Option<Color>,
    pub radius: DisplayRadius,
    pub label: Option<Seq<char>>,
    pub class_id: Option<u16>,
    pub instance_key: Option<u64>,
}

impl View for BoxInstance {
    type V = BoxInstanceSpec;

    open spec fn view(&self) -> BoxInstanceSpec {
        BoxInstanceSpec {
            half_extent: self.half_extent,
            rotation: self.rotation,
            translation: self.translation,
            color: self.color,
            radius: self.radius,
            label: label_text(self.label),
            class_id: self.class_id,
            instance_key: self.instance_key,
        }
    }
}

/// One row as the legacy per-object store yields it: the mandatory oriented
/// box field — half size, rotation and translation in one record — joined
/// with the optional auxiliary fields at the same time point.
pub struct LegacyRow {
    pub instance_index: Option<u64>,
    pub half_size: Point3,
    pub rotation: Quaternion,
    pub translation: Point3,
    pub color: Option<Color>,
    pub stroke_width: Option<u32>,
    pub label: Option<String>,
    pub class_id: Option<u16>,
}

/// One row as the columnar store's materialized view yields it: the primary
/// half-size component joined with separately stored optional position and
/// rotation components and the optional auxiliary components.
pub struct ColumnarRow {
    pub instance_key: u64,
    pub half_size: Point3,
    pub position: Option<Point3>,
    pub rotation: Option<Quaternion>,
    pub color: Option<Color>,
    pub radius: Option<u32>,
    pub label: Option<String>,
    pub class_id: Option<u16>,
}

/// What a legacy row normalizes to: pose taken as stored, and a stroke width
/// read as twice the scene-space radius.
pub open spec fn legacy_instance_spec(row: LegacyRow) -> BoxInstanceSpec {
    BoxInstanceSpec {
        half_extent: row.half_size,
        rotation: row.rotation,
        translation: row.translation,
        color: row.color,
        radius: match row.stroke_width {
            Option::Some(w) => DisplayRadius::HalfStroke { stroke_bits: w },
            Option::None => DisplayRadius::Auto,
        },
        label: label_text(row.label),
        class_id: row.class_id,
        instance_key: row.instance_index,
    }
}

/// What a columnar row normalizes to: a missing position defaults to the
/// origin, a missing rotation to the identity quaternion, and the radius
/// component is already a scene-space radius.
pub open spec fn columnar_instance_spec(row: ColumnarRow) -> BoxInstanceSpec {
    BoxInstanceSpec {
        half_extent: row.half_size,
        rotation: match row.rotation {
            Option::Some(q) => q,
            Option::None => identity_quaternion(),
        },
        translation: match row.position {
            Option::Some(p) => p,
            Option::None => zero_point(),
        },
        color: row.color,
        radius: match row.radius {
            Option::Some(r) => DisplayRadius::Scene { radius_bits: r },
            Option::None => DisplayRadius::Auto,
        },
        label: label_text(row.label),
        class_id: row.class_id,
        instance_key: Option::Some(row.instance_key),
    }
}

/// Normalize one legacy row.
pub fn legacy_row_instance(row: &LegacyRow) -> (b: BoxInstance)
    ensures
        b@ == legacy_instance_spec(*row),
{
    BoxInstance {
        half_extent: row.half_size,
        rotation: row.rotation,
        translation: row.translation,
        color: row.color,
        radius: match row.stroke_width {
            Option::Some(w) => DisplayRadius::HalfStroke { stroke_bits: w },
            Option::None => DisplayRadius::Auto,
        },
        label: match &row.label {
            Option::Some(l) => Option::Some(l.clone()),
            Option::None => Option::None,
        },
        class_id: row.class_id,
        instance_key: row.instance_index,
    }
}

/// Normalize one columnar row.
pub fn columnar_row_instance(row: &ColumnarRow) -> (b: BoxInstance)
    ensures
        b@ == columnar_instance_spec(*row),
{
    BoxInstance {
        half_extent: row.half_size,
        rotation: match row.rotation {
            Option::Some(q) => q,
            Option::None => Quaternion { x: ZERO_BITS, y: ZERO_BITS, z: ZERO_BITS, w: ONE_BITS },
        },
        translation: match row.position {
            Option::Some(p) => p,
            Option::None => Point3 { x: ZERO_BITS, y: ZERO_BITS, z: ZERO_BITS },
        },
        color: row.color,
        radius: match row.radius {
            Option::Some(r) => DisplayRadius::Scene { radius_bits: r },
            Option::None => DisplayRadius::Auto,
        },
        label: match &row.label {
            Option::Some(l) => Option::Some(l.clone()),
            Option::None => Option::None,
        },
        class_id: row.class_id,
        instance_key: Option::Some(row.instance_key),
    }
}

/// Law: the two representations are interchangeable. A columnar row whose
/// split position and rotation components carry the same values as a legacy
/// row's combined box record normalizes to the same pose; and a columnar row
/// that omits them gets the documented defaults.
pub proof fn lemma_row_source_equivalence(l: LegacyRow, c: ColumnarRow)
    ensures
        c.half_size == l.half_size && c.position == Option::Some(l.translation)
            && c.rotation == Option::Some(l.rotation) ==> {
            &&& columnar_instance_spec(c).half_extent == legacy_instance_spec(l).half_extent
            &&& columnar_instance_spec(c).rotation == legacy_instance_spec(l).rotation
            &&& columnar_instance_spec(c).translation == legacy_instance_spec(l).translation
        },
        c.position is None ==> columnar_instance_spec(c).translation == zero_point(),
        c.rotation is None ==> columnar_instance_spec(c).rotation == identity_quaternion(),
{
}

} // verus!
