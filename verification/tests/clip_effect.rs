use haze_wayland_ssd::clip::{
    get_property, is_supported, pipeline_action, plan_paint, property_corners,
    property_read_corner, property_table, register_type, set_property, type_info_sizes, Corner,
    CornerMask, CornerValues, PipelineAction, TypeRegistration, UniformLocations, MAX_RADIUS,
};

fn all(flag: bool) -> CornerMask {
    CornerMask { top_left: flag, top_right: flag, bottom_right: flag, bottom_left: flag }
}

#[test]
fn corner_properties_write_their_own_corner() {
    assert_eq!(
        property_corners(1),
        CornerMask { top_left: true, top_right: false, bottom_right: false, bottom_left: false }
    );
    assert_eq!(
        property_corners(3),
        CornerMask { top_left: false, top_right: false, bottom_right: true, bottom_left: false }
    );
    assert_eq!(property_corners(5), all(true));
    assert_eq!(property_corners(0), all(false));
    assert_eq!(property_corners(6), all(false));
}

#[test]
fn properties_read_their_corner() {
    assert_eq!(property_read_corner(1), Some(Corner::TopLeft));
    assert_eq!(property_read_corner(2), Some(Corner::TopRight));
    assert_eq!(property_read_corner(3), Some(Corner::BottomRight));
    assert_eq!(property_read_corner(4), Some(Corner::BottomLeft));
    assert_eq!(property_read_corner(5), Some(Corner::TopLeft));
    assert_eq!(property_read_corner(9), None);
}

#[test]
fn set_corner_then_get_gives_it_back() {
    let mut values = CornerValues::uniform(0.0f32);
    assert!(set_property(&mut values, 2, 12.5f32, all(true)));
    assert_eq!(get_property(&values, 2), Some(12.5));
    assert_eq!(get_property(&values, 1), Some(0.0));
    assert_eq!(values.get(Corner::BottomLeft), 0.0);
}

#[test]
fn uniform_radius_sets_every_differing_corner() {
    let mut values = CornerValues::uniform(1u32);
    let differs = CornerMask { top_left: true, top_right: false, bottom_right: true, bottom_left: true };
    assert!(set_property(&mut values, 5, 8u32, differs));
    assert_eq!(
        values,
        CornerValues { top_left: 8, top_right: 1, bottom_right: 8, bottom_left: 8 }
    );
    assert_eq!(get_property(&values, 5), Some(8));
}

#[test]
fn unchanged_write_is_not_announced() {
    let mut values = CornerValues::uniform(4u32);
    assert!(!set_property(&mut values, 1, 4u32, all(false)));
    assert_eq!(values, CornerValues::uniform(4u32));
}

#[test]
fn unknown_property_changes_and_reads_nothing() {
    let mut values = CornerValues::uniform(3u32);
    assert!(!set_property(&mut values, 42, 9u32, all(true)));
    assert_eq!(values, CornerValues::uniform(3u32));
    assert_eq!(get_property(&values, 42), None);
}

#[test]
fn property_table_lists_five_radii() {
    let table = property_table();
    assert_eq!(table.len(), 5);
    let ids: Vec<u32> = table.iter().map(|p| p.id).collect();
    assert_eq!(ids, vec![1, 2, 3, 4, 5]);
    assert_eq!(table[0].name, "top-left-radius");
    assert_eq!(table[3].nick, "Bottom Left Radius");
    assert_eq!(table[4].name, "radius");
    assert_eq!(table[4].blurb, "Uniform app-content clip radius");
    for spec in &table {
        assert_eq!(spec.min_value, 0);
        assert_eq!(spec.max_value, 256);
        assert_eq!(spec.default_value, 0);
        assert!(spec.readable && spec.writable && spec.explicit_notify);
    }
    assert_eq!(MAX_RADIUS, 256);
}

#[test]
fn paint_uploads_only_valid_uniforms() {
    let plan = plan_paint(true, true, UniformLocations { radii: 0, size: -1 }, true);
    assert!(plan.upload_radii);
    assert!(!plan.upload_size);
    assert!(plan.chain_parent);
    let plan = plan_paint(true, false, UniformLocations { radii: 3, size: 4 }, false);
    assert!(!plan.upload_radii && !plan.upload_size && !plan.chain_parent);
    let plan = plan_paint(false, true, UniformLocations { radii: 3, size: 4 }, true);
    assert!(!plan.upload_radii && !plan.upload_size && plan.chain_parent);
}

#[test]
fn fresh_uniforms_are_unresolved() {
    assert_eq!(UniformLocations::unresolved(), UniformLocations { radii: -1, size: -1 });
    let plan = plan_paint(true, true, UniformLocations::unresolved(), false);
    assert!(!plan.upload_radii && !plan.upload_size);
}

#[test]
fn pipeline_is_built_once_then_reused() {
    assert_eq!(pipeline_action(false, false), PipelineAction::Unavailable);
    assert_eq!(pipeline_action(false, true), PipelineAction::Unavailable);
    assert_eq!(pipeline_action(true, false), PipelineAction::Build);
    assert_eq!(pipeline_action(true, true), PipelineAction::Reuse);
}

#[test]
fn type_is_registered_once() {
    assert_eq!(register_type(None), TypeRegistration::RegisterNow);
    assert_eq!(register_type(Some(77)), TypeRegistration::Registered(77));
}

#[test]
fn effect_is_supported_iff_type_is_valid() {
    assert!(is_supported(94_000_123));
    assert!(!is_supported(0));
}

#[test]
fn type_info_sizes_truncate_to_16_bits() {
    assert_eq!(type_info_sizes(136, 40), (136, 40));
    assert_eq!(type_info_sizes(65536 + 8, 70000), (8, 4464));
}
