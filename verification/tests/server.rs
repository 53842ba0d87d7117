use dc_mods::world::{ObjectHandle, ObjectType, Server, StringField, WorldObject};

#[test]
fn server_type_constants() {
    assert_eq!(Server::object_type(), ObjectType::server());
    assert_eq!(Server::id_field(), StringField::server_id());
    assert_eq!(Server::object_type().0, 0);
    assert_eq!(Server::id_field().0, 0);
}

#[test]
fn server_construction() {
    let srv = Server::from_handle(ObjectHandle(0xCAFE), "srv-001".into());
    assert_eq!(srv.handle(), ObjectHandle(0xCAFE));
    assert_eq!(srv.id(), "srv-001");
    assert_eq!(srv.server_id(), "srv-001");
}

#[test]
fn server_handle_validity() {
    let valid = Server::from_handle(ObjectHandle(1), "a".into());
    let invalid = Server::from_handle(ObjectHandle::invalid(), "b".into());
    assert!(valid.handle().is_valid());
    assert!(!invalid.handle().is_valid());
}

#[test]
fn server_clone() {
    let srv = Server::from_handle(ObjectHandle(42), "clone-me".into());
    let cloned = srv.clone();
    assert_eq!(srv.handle(), cloned.handle());
    assert_eq!(srv.id(), cloned.id());
}
