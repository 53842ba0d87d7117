use dc_mods::world::registry::ObjectIdRegistry;
use dc_mods::world::ObjectHandle;

#[test]
fn populate_registers_named_and_names_unnamed() {
    let mut reg = ObjectIdRegistry::new();
    let objects = vec![
        (ObjectHandle(1), "srv-a".to_string()),
        (ObjectHandle(2), String::new()),
        (ObjectHandle(3), String::new()),
    ];
    let assigned = reg.populate_objects(&objects, 0, "Server");
    assert_eq!(
        assigned,
        vec![(ObjectHandle(2), "Server__g0001".to_string()), (ObjectHandle(3), "Server__g0002".to_string())]
    );
    assert_eq!(reg.len(), 3);
    assert_eq!(reg.find_by_id("srv-a").unwrap().handle, ObjectHandle(1));
    assert_eq!(reg.find_id_by_handle(ObjectHandle(3)), Some("Server__g0002"));

    let more = vec![(ObjectHandle(9), String::new()), (ObjectHandle(1), "srv-b".to_string())];
    let assigned2 = reg.populate_objects(&more, 4, "Switch");
    assert_eq!(assigned2, vec![(ObjectHandle(9), "Switch__g0003".to_string())]);
    assert!(reg.find_by_id("srv-a").is_none());
    assert_eq!(reg.find_id_by_handle(ObjectHandle(1)), Some("srv-b"));
    assert_eq!(reg.find_by_id("Switch__g0003").unwrap().object_type, 4);
}

#[test]
fn tables_stay_linked_both_ways() {
    let mut reg = ObjectIdRegistry::new();
    reg.register("a", ObjectHandle(1), 0);
    reg.register("b", ObjectHandle(2), 0);
    reg.register("a", ObjectHandle(2), 0);
    for (id, entry) in reg.iter() {
        assert_eq!(reg.find_id_by_handle(entry.handle), Some(id.as_str()));
    }
    assert!(reg.find_by_id("b").is_none());
    assert_eq!(reg.find_id_by_handle(ObjectHandle(1)), None);
    assert!(reg.update_handle("a", ObjectHandle(9)));
    assert_eq!(reg.find_id_by_handle(ObjectHandle(9)), Some("a"));
    assert_eq!(reg.find_id_by_handle(ObjectHandle(2)), None);
}

#[test]
fn update_onto_a_taken_handle_unlinks_the_other_id() {
    let mut reg = ObjectIdRegistry::new();
    reg.register("a", ObjectHandle(1), 0);
    reg.register("b", ObjectHandle(2), 0);
    assert!(reg.update_handle("a", ObjectHandle(2)));
    assert_eq!(reg.find_id_by_handle(ObjectHandle(2)), Some("a"));
    assert_eq!(reg.find_by_id("b").unwrap().handle, ObjectHandle(2));
}
