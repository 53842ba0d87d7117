use dc_mods::world::{NetworkSwitch, ObjectHandle, ObjectType, StringField, WorldObject};

#[test]
fn network_switch_type_constants() {
    assert_eq!(NetworkSwitch::object_type(), ObjectType::network_switch());
    assert_eq!(NetworkSwitch::object_type().0, 4);
    assert_eq!(NetworkSwitch::id_field(), StringField::switch_id());
    assert_eq!(NetworkSwitch::id_field().0, 1);
}

#[test]
fn network_switch_construction_and_accessors() {
    let sw = NetworkSwitch::from_handle(ObjectHandle(0xABC), "sw-42".into());
    assert_eq!(sw.handle(), ObjectHandle(0xABC));
    assert_eq!(sw.id(), "sw-42");
    assert_eq!(sw.switch_id(), "sw-42");
}

#[test]
fn network_switch_handle_validity() {
    let valid = NetworkSwitch::from_handle(ObjectHandle(1), "x".into());
    let invalid = NetworkSwitch::from_handle(ObjectHandle::invalid(), "".into());
    assert!(valid.handle().is_valid());
    assert!(!invalid.handle().is_valid());
}
