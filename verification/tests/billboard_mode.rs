use bevy_bor3d::billboard_mode::{Billboard, ExtractedBillboard};

#[test]
fn default_billboard_faces_forward() {
    assert_eq!(Billboard::default(), Billboard::Forward);
}

#[test]
fn extraction_keeps_mode() {
    assert_eq!(ExtractedBillboard::from_component(None), ExtractedBillboard::Disabled);
    assert_eq!(
        ExtractedBillboard::from_component(Some(&Billboard::Forward)),
        ExtractedBillboard::Forward
    );
    assert_eq!(
        ExtractedBillboard::from_component(Some(&Billboard::LookAt)),
        ExtractedBillboard::LookAt
    );
}

#[test]
fn shader_values_are_distinct() {
    assert_eq!(ExtractedBillboard::Disabled.shader_value(), 0);
    assert_eq!(ExtractedBillboard::Forward.shader_value(), 1);
    assert_eq!(ExtractedBillboard::LookAt.shader_value(), 2);
}
