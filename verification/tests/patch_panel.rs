use dc_mods::world::{ObjectHandle, ObjectType, PatchPanel, StringField, WorldObject};

#[test]
fn patch_panel_type_constants() {
    assert_eq!(PatchPanel::object_type(), ObjectType::patch_panel());
    assert_eq!(PatchPanel::object_type().0, 7);
    assert_eq!(PatchPanel::id_field(), StringField::patch_panel_id());
    assert_eq!(PatchPanel::id_field().0, 4);
}

#[test]
fn patch_panel_construction_and_accessors() {
    let pp = PatchPanel::from_handle(ObjectHandle(0xABC), "pp-42".into());
    assert_eq!(pp.handle(), ObjectHandle(0xABC));
    assert_eq!(pp.id(), "pp-42");
    assert_eq!(pp.patch_panel_id(), "pp-42");
}

#[test]
fn patch_panel_handle_validity() {
    let valid = PatchPanel::from_handle(ObjectHandle(1), "x".into());
    let invalid = PatchPanel::from_handle(ObjectHandle::invalid(), "".into());
    assert!(valid.handle().is_valid());
    assert!(!invalid.handle().is_valid());
}
