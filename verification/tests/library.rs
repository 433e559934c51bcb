use boxes3d::attributes::{
    hover_color, resolve_attributes, AnnotationContext, ClassDescription, Color, DisplayRadius,
};
use boxes3d::extract::{
    Boxes3DPart, Boxes3DPartClassic, ColumnarEntityInput, ColumnarQueryResult, EntityContext,
    EntityView, LegacyEntityInput, PreparedRow, SceneOutput, TransformMatrix, TransformResolution,
};
use boxes3d::geometry::{transformed_box_segments, unit_cube_corner, unit_cube_corners, Point3};
use boxes3d::identity::{identity, EntityPath, InstanceIdentityHash};
use boxes3d::rows::{columnar_row_instance, legacy_row_instance, BoxInstance, ColumnarRow, LegacyRow, Quaternion};

fn point_from_vec3(v: glam::Vec3) -> Point3 {
    Point3 {
        x: v.x.to_bits(),
        y: v.y.to_bits(),
        z: v.z.to_bits(),
    }
}

fn vec3_from_point(p: Point3) -> glam::Vec3 {
    glam::Vec3::new(
        f32::from_bits(p.x),
        f32::from_bits(p.y),
        f32::from_bits(p.z),
    )
}

fn quat_from_bits(q: Quaternion) -> glam::Quat {
    glam::Quat::from_xyzw(
        f32::from_bits(q.x),
        f32::from_bits(q.y),
        f32::from_bits(q.z),
        f32::from_bits(q.w),
    )
}

fn matrix_from_mat4(m: glam::Mat4) -> TransformMatrix {
    let cols = m.to_cols_array();
    let mut elements = [0u32; 16];
    for (i, c) in cols.iter().enumerate() {
        elements[i] = c.to_bits();
    }
    TransformMatrix { elements }
}

/// The float work the library leaves to its caller: place the canonical cube
/// corners with the instance transform and anchor the label in world space.
fn prepare_row(instance: BoxInstance, world_from_entity: glam::Mat4) -> PreparedRow {
    let transform = glam::Affine3A::from_scale_rotation_translation(
        vec3_from_point(instance.half_extent),
        quat_from_bits(instance.rotation),
        vec3_from_point(instance.translation),
    );
    let canonical = unit_cube_corners();
    let mut corners = [Point3 { x: 0, y: 0, z: 0 }; 8];
    for i in 0..8 {
        corners[i] = point_from_vec3(transform.transform_point3(vec3_from_point(canonical[i])));
    }
    let label_origin =
        point_from_vec3(world_from_entity.transform_point3(vec3_from_point(instance.translation)));
    PreparedRow {
        instance,
        corners,
        label_origin,
    }
}

fn bits3(x: f32, y: f32, z: f32) -> Point3 {
    Point3 {
        x: x.to_bits(),
        y: y.to_bits(),
        z: z.to_bits(),
    }
}

fn identity_quat() -> Quaternion {
    Quaternion {
        x: 0f32.to_bits(),
        y: 0f32.to_bits(),
        z: 0f32.to_bits(),
        w: 1f32.to_bits(),
    }
}

const RED: Color = Color {
    r: 255,
    g: 0,
    b: 0,
    a: 255,
};
const GRAY: Color = Color {
    r: 100,
    g: 100,
    b: 100,
    a: 255,
};

fn context_with_class7(interactive: bool) -> EntityContext {
    EntityContext {
        path: EntityPath {
            name: "box1".to_string(),
        },
        interactive,
        annotations: AnnotationContext {
            classes: vec![(
                7u16,
                ClassDescription {
                    color: Some(RED),
                    label: None,
                },
            )],
        },
        default_color: GRAY,
    }
}

fn box1_columnar_row() -> ColumnarRow {
    ColumnarRow {
        instance_key: 0,
        half_size: bits3(1.0, 1.0, 1.0),
        position: None,
        rotation: None,
        color: None,
        radius: None,
        label: None,
        class_id: Some(7),
    }
}

fn box1_input(hover_key: bool) -> (ColumnarEntityInput, InstanceIdentityHash) {
    let ctx = context_with_class7(true);
    let instance = columnar_row_instance(&box1_columnar_row());
    let id = identity(&ctx.path, instance.instance_key, true);
    let row = prepare_row(instance, glam::Mat4::IDENTITY);
    let input = ColumnarEntityInput {
        ctx,
        transform: TransformResolution::Reachable {
            world_from_entity: matrix_from_mat4(glam::Mat4::IDENTITY),
        },
        result: ColumnarQueryResult::View {
            entity_view: EntityView { rows: vec![row] },
        },
    };
    let hovered = if hover_key {
        id
    } else {
        InstanceIdentityHash::Missing
    };
    (input, hovered)
}

#[test]
fn unit_cube_corner_bits() {
    for i in 0..8usize {
        let p = unit_cube_corner(i);
        let expect_x = if i / 4 % 2 == 1 { 0.5f32 } else { -0.5f32 };
        let expect_y = if i / 2 % 2 == 1 { 0.5f32 } else { -0.5f32 };
        let expect_z = if i % 2 == 1 { 0.5f32 } else { -0.5f32 };
        assert_eq!(p.x, expect_x.to_bits());
        assert_eq!(p.y, expect_y.to_bits());
        assert_eq!(p.z, expect_z.to_bits());
    }
}

#[test]
fn segments_form_cube_edges_under_affine_transform() {
    let transform = glam::Affine3A::from_scale_rotation_translation(
        glam::Vec3::new(2.0, 3.0, 4.0),
        glam::Quat::from_rotation_y(0.7),
        glam::Vec3::new(-5.0, 2.0, 9.0),
    );
    let canonical = unit_cube_corners();
    let mut corners = [Point3 { x: 0, y: 0, z: 0 }; 8];
    for i in 0..8 {
        corners[i] = point_from_vec3(transform.transform_point3(vec3_from_point(canonical[i])));
    }
    let segs = transformed_box_segments(&corners);
    assert_eq!(segs.len(), 12);
    let inverse = transform.inverse();
    for (a, b) in segs.iter() {
        let pa = inverse.transform_point3(vec3_from_point(*a));
        let pb = inverse.transform_point3(vec3_from_point(*b));
        let mut signs_a = [0i32; 3];
        let mut signs_b = [0i32; 3];
        for (axis, (ca, cb)) in pa.to_array().iter().zip(pb.to_array().iter()).enumerate() {
            assert!((ca.abs() - 0.5).abs() < 1e-5, "not a canonical corner");
            assert!((cb.abs() - 0.5).abs() < 1e-5, "not a canonical corner");
            signs_a[axis] = ca.signum() as i32;
            signs_b[axis] = cb.signum() as i32;
        }
        let diffs = signs_a
            .iter()
            .zip(signs_b.iter())
            .filter(|(x, y)| x != y)
            .count();
        assert_eq!(diffs, 1, "edge endpoints must differ in exactly one sign");
    }
}

#[test]
fn segment_order_is_stable() {
    let canonical = unit_cube_corners();
    let segs = transformed_box_segments(&canonical);
    // bottom edges first, then top, then vertical; spot-check the pattern
    assert_eq!(segs[0], (canonical[0], canonical[1]));
    assert_eq!(segs[3], (canonical[3], canonical[2]));
    assert_eq!(segs[4], (canonical[4], canonical[5]));
    assert_eq!(segs[8], (canonical[0], canonical[4]));
    assert_eq!(segs[11], (canonical[3], canonical[7]));
}

#[test]
fn identity_is_stable_and_distinct() {
    let path = EntityPath {
        name: "world/points/box".to_string(),
    };
    let a = identity(&path, Some(17), true);
    let b = identity(&path, Some(17), true);
    assert_eq!(a, b);
    let c = identity(&path, Some(18), true);
    assert_ne!(a, c);
    match a {
        InstanceIdentityHash::Keyed { .. } => {}
        InstanceIdentityHash::Missing => panic!("interactive identity must be keyed"),
    }
}

#[test]
fn identity_sentinel_when_not_interactive_or_keyless() {
    let path = EntityPath {
        name: "world/points/box".to_string(),
    };
    assert_eq!(
        identity(&path, Some(17), false),
        InstanceIdentityHash::Missing
    );
    assert_eq!(identity(&path, None, true), InstanceIdentityHash::Missing);
}

#[test]
fn path_hash_matches_fnv1a_reference() {
    let path = EntityPath {
        name: "box1".to_string(),
    };
    let mut expect: u64 = 0xcbf2_9ce4_8422_2325;
    for byte in "box1".bytes() {
        expect = (expect ^ byte as u64).wrapping_mul(0x100_0000_01b3);
    }
    assert_eq!(path.hash64(), expect);
}

#[test]
fn color_precedence_class_over_default() {
    let ctx = context_with_class7(true);
    let r = resolve_attributes(
        &ctx.annotations,
        Some(7),
        None,
        DisplayRadius::Auto,
        &None,
        GRAY,
        InstanceIdentityHash::Missing,
        InstanceIdentityHash::Missing,
    );
    assert_eq!(r.color, RED);
}

#[test]
fn color_precedence_raw_over_class() {
    let ctx = context_with_class7(true);
    let raw = Color {
        r: 1,
        g: 2,
        b: 3,
        a: 4,
    };
    let r = resolve_attributes(
        &ctx.annotations,
        Some(7),
        Some(raw),
        DisplayRadius::Auto,
        &None,
        GRAY,
        InstanceIdentityHash::Missing,
        InstanceIdentityHash::Missing,
    );
    assert_eq!(r.color, raw);
}

#[test]
fn color_precedence_default_when_nothing_set() {
    let ctx = context_with_class7(true);
    let r = resolve_attributes(
        &ctx.annotations,
        Some(9), // unregistered class id
        None,
        DisplayRadius::Auto,
        &None,
        GRAY,
        InstanceIdentityHash::Missing,
        InstanceIdentityHash::Missing,
    );
    assert_eq!(r.color, GRAY);
}

#[test]
fn hover_overrides_every_color_choice() {
    let ctx = context_with_class7(true);
    let raw = Color {
        r: 1,
        g: 2,
        b: 3,
        a: 4,
    };
    let id = InstanceIdentityHash::Keyed {
        entity: 11,
        instance: 5,
    };
    let r = resolve_attributes(
        &ctx.annotations,
        Some(7),
        Some(raw),
        DisplayRadius::Scene {
            radius_bits: 2.0f32.to_bits(),
        },
        &None,
        GRAY,
        id,
        id,
    );
    assert_eq!(r.color, hover_color());
    assert!(r.radius.boosted);
    assert_eq!(
        r.radius.base,
        DisplayRadius::Scene {
            radius_bits: 2.0f32.to_bits()
        }
    );
}

#[test]
fn sentinel_identity_never_hovers() {
    let ctx = context_with_class7(true);
    let r = resolve_attributes(
        &ctx.annotations,
        None,
        None,
        DisplayRadius::Auto,
        &None,
        GRAY,
        InstanceIdentityHash::Missing,
        InstanceIdentityHash::Missing,
    );
    assert_eq!(r.color, GRAY);
    assert!(!r.radius.boosted);
}

#[test]
fn label_resolution_raw_over_class() {
    let annotations = AnnotationContext {
        classes: vec![(
            2u16,
            ClassDescription {
                color: None,
                label: Some("class label".to_string()),
            },
        )],
    };
    let raw = Some("raw label".to_string());
    let r = resolve_attributes(
        &annotations,
        Some(2),
        None,
        DisplayRadius::Auto,
        &raw,
        GRAY,
        InstanceIdentityHash::Missing,
        InstanceIdentityHash::Missing,
    );
    assert_eq!(r.label.as_deref(), Some("raw label"));
    let r2 = resolve_attributes(
        &annotations,
        Some(2),
        None,
        DisplayRadius::Auto,
        &None,
        GRAY,
        InstanceIdentityHash::Missing,
        InstanceIdentityHash::Missing,
    );
    assert_eq!(r2.label.as_deref(), Some("class label"));
    let r3 = resolve_attributes(
        &annotations,
        None,
        None,
        DisplayRadius::Auto,
        &None,
        GRAY,
        InstanceIdentityHash::Missing,
        InstanceIdentityHash::Missing,
    );
    assert_eq!(r3.label, None);
}

#[test]
fn legacy_row_normalization() {
    let row = LegacyRow {
        instance_index: Some(3),
        half_size: bits3(1.0, 2.0, 3.0),
        rotation: identity_quat(),
        translation: bits3(4.0, 5.0, 6.0),
        color: Some(RED),
        stroke_width: Some(3.0f32.to_bits()),
        label: Some("a box".to_string()),
        class_id: Some(7),
    };
    let b = legacy_row_instance(&row);
    assert_eq!(b.half_extent, bits3(1.0, 2.0, 3.0));
    assert_eq!(b.translation, bits3(4.0, 5.0, 6.0));
    assert_eq!(
        b.radius,
        DisplayRadius::HalfStroke {
            stroke_bits: 3.0f32.to_bits()
        }
    );
    assert_eq!(b.instance_key, Some(3));
    assert_eq!(b.label.as_deref(), Some("a box"));
}

#[test]
fn columnar_row_defaults_match_legacy_pose() {
    let c = ColumnarRow {
        instance_key: 9,
        half_size: bits3(1.0, 1.0, 1.0),
        position: None,
        rotation: None,
        color: None,
        radius: Some(0.5f32.to_bits()),
        label: None,
        class_id: None,
    };
    let b = columnar_row_instance(&c);
    assert_eq!(b.translation, bits3(0.0, 0.0, 0.0));
    assert_eq!(b.rotation, identity_quat());
    assert_eq!(
        b.radius,
        DisplayRadius::Scene {
            radius_bits: 0.5f32.to_bits()
        }
    );
    assert_eq!(b.instance_key, Some(9));

    let l = LegacyRow {
        instance_index: Some(9),
        half_size: bits3(1.0, 1.0, 1.0),
        rotation: identity_quat(),
        translation: bits3(0.0, 0.0, 0.0),
        color: None,
        stroke_width: None,
        label: None,
        class_id: None,
    };
    let bl = legacy_row_instance(&l);
    assert_eq!(b.half_extent, bl.half_extent);
    assert_eq!(b.rotation, bl.rotation);
    assert_eq!(b.translation, bl.translation);
}

#[test]
fn unreachable_entity_contributes_nothing() {
    let part = Boxes3DPartClassic;
    let mut out = SceneOutput::new();
    let instance = legacy_row_instance(&LegacyRow {
        instance_index: Some(0),
        half_size: bits3(1.0, 1.0, 1.0),
        rotation: identity_quat(),
        translation: bits3(0.0, 0.0, 0.0),
        color: None,
        stroke_width: None,
        label: Some("never shown".to_string()),
        class_id: None,
    });
    let input = LegacyEntityInput {
        ctx: context_with_class7(true),
        transform: TransformResolution::Unreachable,
        rows: vec![prepare_row(instance, glam::Mat4::IDENTITY)],
    };
    part.load_entity(&input, InstanceIdentityHash::Missing, &mut out);
    assert_eq!(out.batches.len(), 0);
    assert_eq!(out.labels.len(), 0);
    assert_eq!(out.num_logged_objects, 0);
    assert_eq!(out.query_errors.len(), 0);
}

#[test]
fn primary_not_found_is_silent() {
    let part = Boxes3DPart;
    let mut out = SceneOutput::new();
    let input = ColumnarEntityInput {
        ctx: context_with_class7(true),
        transform: TransformResolution::Reachable {
            world_from_entity: matrix_from_mat4(glam::Mat4::IDENTITY),
        },
        result: ColumnarQueryResult::PrimaryNotFound,
    };
    part.load_entity(&input, InstanceIdentityHash::Missing, &mut out);
    assert_eq!(out.batches.len(), 0);
    assert_eq!(out.labels.len(), 0);
    assert_eq!(out.num_logged_objects, 0);
    assert_eq!(out.query_errors.len(), 0);
}

#[test]
fn query_fault_logs_exactly_once() {
    let part = Boxes3DPart;
    let mut out = SceneOutput::new();
    let input = ColumnarEntityInput {
        ctx: context_with_class7(true),
        transform: TransformResolution::Reachable {
            world_from_entity: matrix_from_mat4(glam::Mat4::IDENTITY),
        },
        result: ColumnarQueryResult::Fault {
            detail: "store corruption".to_string(),
        },
    };
    part.load_entity(&input, InstanceIdentityHash::Missing, &mut out);
    assert_eq!(out.batches.len(), 0);
    assert_eq!(out.labels.len(), 0);
    assert_eq!(out.num_logged_objects, 0);
    assert_eq!(out.query_errors.len(), 1);
    assert_eq!(out.query_errors[0].entity_path.name, "box1");
    assert_eq!(out.query_errors[0].detail, "store corruption");
}

#[test]
fn box1_scenario_red_auto() {
    let part = Boxes3DPart;
    let mut out = SceneOutput::new();
    let (input, hovered) = box1_input(false);
    part.load(&vec![input], hovered, &mut out);

    assert_eq!(out.num_logged_objects, 1);
    assert_eq!(out.batches.len(), 1);
    let batch = &out.batches[0];
    assert_eq!(batch.name, "box 3d");
    assert_eq!(batch.segments.len(), 12);
    for seg in batch.segments.iter() {
        assert_eq!(seg.color, RED);
        assert_eq!(seg.radius.base, DisplayRadius::Auto);
        assert!(!seg.radius.boosted);
        for p in [seg.start, seg.end] {
            let v = vec3_from_point(p);
            for c in v.to_array() {
                assert!((c.abs() - 0.5).abs() < 1e-6);
            }
        }
    }
    assert_eq!(out.labels.len(), 0);
    assert_eq!(out.query_errors.len(), 0);
}

#[test]
fn box1_scenario_hovered() {
    let part = Boxes3DPart;
    let mut out = SceneOutput::new();
    let (input, hovered) = box1_input(true);
    assert_ne!(hovered, InstanceIdentityHash::Missing);
    part.load(&vec![input], hovered, &mut out);

    assert_eq!(out.batches.len(), 1);
    let batch = &out.batches[0];
    assert_eq!(batch.segments.len(), 12);
    for seg in batch.segments.iter() {
        assert_eq!(seg.color, hover_color());
        assert_eq!(seg.radius.base, DisplayRadius::Auto);
        assert!(seg.radius.boosted, "hover must boost the radius");
    }
}

#[test]
fn counter_counts_entities_not_instances() {
    let part = Boxes3DPartClassic;
    let mut out = SceneOutput::new();
    let make_instance = |key: u64| {
        legacy_row_instance(&LegacyRow {
            instance_index: Some(key),
            half_size: bits3(1.0, 1.0, 1.0),
            rotation: identity_quat(),
            translation: bits3(0.0, 0.0, 0.0),
            color: None,
            stroke_width: None,
            label: None,
            class_id: None,
        })
    };
    let reachable = LegacyEntityInput {
        ctx: context_with_class7(true),
        transform: TransformResolution::Reachable {
            world_from_entity: matrix_from_mat4(glam::Mat4::IDENTITY),
        },
        rows: vec![
            prepare_row(make_instance(0), glam::Mat4::IDENTITY),
            prepare_row(make_instance(1), glam::Mat4::IDENTITY),
            prepare_row(make_instance(2), glam::Mat4::IDENTITY),
        ],
    };
    let unreachable = LegacyEntityInput {
        ctx: context_with_class7(true),
        transform: TransformResolution::Unreachable,
        rows: vec![prepare_row(make_instance(0), glam::Mat4::IDENTITY)],
    };
    part.load(&vec![reachable, unreachable], InstanceIdentityHash::Missing, &mut out);
    assert_eq!(out.num_logged_objects, 1);
    assert_eq!(out.batches.len(), 1);
    assert_eq!(out.batches[0].segments.len(), 36);
}

#[test]
fn label_anchor_lands_at_world_translation() {
    let part = Boxes3DPartClassic;
    let mut out = SceneOutput::new();
    let world = glam::Mat4::from_translation(glam::Vec3::new(10.0, 0.0, 0.0));
    let instance = legacy_row_instance(&LegacyRow {
        instance_index: Some(0),
        half_size: bits3(1.0, 1.0, 1.0),
        rotation: identity_quat(),
        translation: bits3(1.0, 2.0, 3.0),
        color: None,
        stroke_width: None,
        label: Some("hello".to_string()),
        class_id: None,
    });
    let input = LegacyEntityInput {
        ctx: context_with_class7(true),
        transform: TransformResolution::Reachable {
            world_from_entity: matrix_from_mat4(world),
        },
        rows: vec![prepare_row(instance, world)],
    };
    part.load_entity(&input, InstanceIdentityHash::Missing, &mut out);
    assert_eq!(out.labels.len(), 1);
    assert_eq!(out.labels[0].text, "hello");
    let origin = vec3_from_point(out.labels[0].origin);
    assert_eq!(origin, glam::Vec3::new(11.0, 2.0, 3.0));
}

#[test]
fn empty_view_still_counts_the_entity() {
    let part = Boxes3DPart;
    let mut out = SceneOutput::new();
    let input = ColumnarEntityInput {
        ctx: context_with_class7(true),
        transform: TransformResolution::Reachable {
            world_from_entity: matrix_from_mat4(glam::Mat4::IDENTITY),
        },
        result: ColumnarQueryResult::View {
            entity_view: EntityView { rows: vec![] },
        },
    };
    part.load_entity(&input, InstanceIdentityHash::Missing, &mut out);
    assert_eq!(out.num_logged_objects, 1);
    assert_eq!(out.batches.len(), 1);
    assert_eq!(out.batches[0].segments.len(), 0);
    assert_eq!(out.labels.len(), 0);
}

#[test]
fn first_registered_class_wins() {
    let annotations = AnnotationContext {
        classes: vec![
            (
                5u16,
                ClassDescription {
                    color: Some(RED),
                    label: None,
                },
            ),
            (
                5u16,
                ClassDescription {
                    color: Some(GRAY),
                    label: None,
                },
            ),
        ],
    };
    let r = resolve_attributes(
        &annotations,
        Some(5),
        None,
        DisplayRadius::Auto,
        &None,
        GRAY,
        InstanceIdentityHash::Missing,
        InstanceIdentityHash::Missing,
    );
    assert_eq!(r.color, RED);
}

#[test]
fn half_stroke_radius_source_carried() {
    let part = Boxes3DPartClassic;
    let mut out = SceneOutput::new();
    let instance = legacy_row_instance(&LegacyRow {
        instance_index: Some(0),
        half_size: bits3(1.0, 1.0, 1.0),
        rotation: identity_quat(),
        translation: bits3(0.0, 0.0, 0.0),
        color: None,
        stroke_width: Some(4.0f32.to_bits()),
        label: None,
        class_id: None,
    });
    let input = LegacyEntityInput {
        ctx: context_with_class7(true),
        transform: TransformResolution::Reachable {
            world_from_entity: matrix_from_mat4(glam::Mat4::IDENTITY),
        },
        rows: vec![prepare_row(instance, glam::Mat4::IDENTITY)],
    };
    part.load_entity(&input, InstanceIdentityHash::Missing, &mut out);
    assert_eq!(
        out.batches[0].segments[0].radius.base,
        DisplayRadius::HalfStroke {
            stroke_bits: 4.0f32.to_bits()
        }
    );
}
