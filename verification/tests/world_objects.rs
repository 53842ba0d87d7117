use dc_mods::world::{NetworkSwitch, ObjectHandle, ObjectType, Server, StringField, WorldObject};

struct CustomGizmo {
    handle: ObjectHandle,
    id: String,
}

impl WorldObject for CustomGizmo {
    fn object_type() -> ObjectType {
        ObjectType(99)
    }
    fn id_field() -> StringField {
        StringField(99)
    }
    fn from_handle(handle: ObjectHandle, id: String) -> Self {
        Self { handle, id }
    }
    fn handle(&self) -> ObjectHandle {
        self.handle
    }
    fn id(&self) -> &str {
        &self.id
    }
}

#[test]
fn mod_handle_validity() {
    assert!(!ObjectHandle::invalid().is_valid());
    assert!(ObjectHandle(1).is_valid());
    assert!(ObjectHandle(0xDEAD_BEEF).is_valid());
}

#[test]
fn handle_conversions() {
    let h: ObjectHandle = 42u64.into();
    assert_eq!(h.0, 42);
    let v: u64 = h.into();
    assert_eq!(v, 42);
}

#[test]
fn builtin_object_type_constants() {
    assert_eq!(ObjectType::server().0, 0);
    assert_eq!(ObjectType::network_switch().0, 4);
}

#[test]
fn builtin_string_field_constants() {
    assert_eq!(StringField::server_id().0, 0);
    assert_eq!(StringField::switch_id().0, 1);
    assert_eq!(StringField::rack_position_uid().0, 2);
    assert_eq!(StringField::game_object_name().0, 3);
}

#[test]
fn custom_constants_compile() {
    let t = ObjectType(42);
    let f = StringField(100);
    assert_eq!(t.0, 42);
    assert_eq!(f.0, 100);
}

#[test]
fn custom_world_object() {
    let g = CustomGizmo::from_handle(ObjectHandle(0xCAFE), "gizmo-1".into());
    assert_eq!(g.handle(), ObjectHandle(0xCAFE));
    assert_eq!(g.id(), "gizmo-1");
    assert_eq!(CustomGizmo::object_type().0, 99);
    assert_eq!(CustomGizmo::id_field().0, 99);
}

#[test]
fn builtin_server_type() {
    let srv = Server::from_handle(ObjectHandle(1), "srv-1".into());
    assert_eq!(srv.handle(), ObjectHandle(1));
    assert_eq!(srv.id(), "srv-1");
    assert_eq!(Server::object_type(), ObjectType::server());
    assert_eq!(Server::id_field(), StringField::server_id());
}

#[test]
fn builtin_switch_type() {
    let sw = NetworkSwitch::from_handle(ObjectHandle(2), "sw-1".into());
    assert_eq!(sw.handle(), ObjectHandle(2));
    assert_eq!(sw.id(), "sw-1");
    assert_eq!(NetworkSwitch::object_type(), ObjectType::network_switch());
    assert_eq!(NetworkSwitch::id_field(), StringField::switch_id());
}
