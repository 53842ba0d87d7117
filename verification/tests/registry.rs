use dc_mods::world::registry::{reset_registry, with_registry, with_registry_mut, ObjectIdRegistry};
use dc_mods::world::ObjectHandle;

fn h(v: u64) -> ObjectHandle {
    ObjectHandle(v)
}

#[test]
fn register_and_lookup() {
    let mut reg = ObjectIdRegistry::new();
    reg.register("srv-1", h(100), 0);

    let entry = reg.find_by_id("srv-1").unwrap();
    assert_eq!(entry.handle, h(100));
    assert_eq!(entry.object_type, 0);

    assert_eq!(reg.find_id_by_handle(h(100)), Some("srv-1"));
}

#[test]
fn update_handle_after_clone() {
    let mut reg = ObjectIdRegistry::new();
    reg.register("srv-1", h(100), 0);

    assert!(reg.update_handle("srv-1", h(200)));

    assert_eq!(reg.find_by_id("srv-1").unwrap().handle, h(200));
    assert_eq!(reg.find_id_by_handle(h(200)), Some("srv-1"));
    assert_eq!(reg.find_id_by_handle(h(100)), None); // old handle gone
}

#[test]
fn update_handle_nonexistent_returns_false() {
    let mut reg = ObjectIdRegistry::new();
    assert!(!reg.update_handle("nope", h(1)));
}

#[test]
fn remove_clears_both_maps() {
    let mut reg = ObjectIdRegistry::new();
    reg.register("sw-1", h(50), 4);

    let removed = reg.remove("sw-1").unwrap();
    assert_eq!(removed.handle, h(50));
    assert!(reg.find_by_id("sw-1").is_none());
    assert!(reg.find_id_by_handle(h(50)).is_none());
}

#[test]
fn generate_id_increments() {
    let mut reg = ObjectIdRegistry::new();
    assert_eq!(reg.generate_id("PP"), "PP__g0001");
    assert_eq!(reg.generate_id("PP"), "PP__g0002");
    assert_eq!(reg.generate_id("Srv"), "Srv__g0003");
}

#[test]
fn register_overwrites_stale_reverse() {
    let mut reg = ObjectIdRegistry::new();
    reg.register("a", h(10), 0);
    reg.register("b", h(10), 4); // same handle, different ID

    // "b" now owns handle 10
    assert_eq!(reg.find_id_by_handle(h(10)), Some("b"));
    // "a" should have been cleaned up
    assert!(reg.find_by_id("a").is_none());
}

#[test]
fn register_same_id_updates_handle() {
    let mut reg = ObjectIdRegistry::new();
    reg.register("srv-1", h(10), 0);
    reg.register("srv-1", h(20), 0);

    assert_eq!(reg.find_by_id("srv-1").unwrap().handle, h(20));
    assert_eq!(reg.find_id_by_handle(h(20)), Some("srv-1"));
    assert_eq!(reg.find_id_by_handle(h(10)), None);
}

#[test]
fn clear_empties_everything() {
    let mut reg = ObjectIdRegistry::new();
    reg.register("a", h(1), 0);
    reg.register("b", h(2), 4);
    reg.clear();
    assert!(reg.is_empty());
    assert!(reg.find_by_id("a").is_none());
    assert!(reg.find_id_by_handle(h(1)).is_none());
}

#[test]
fn iter_yields_all() {
    let mut reg = ObjectIdRegistry::new();
    reg.register("a", h(1), 0);
    reg.register("b", h(2), 4);
    let mut items: Vec<_> = reg.iter().into_iter().map(|(id, _)| id.to_string()).collect();
    items.sort();
    assert_eq!(items, vec!["a", "b"]);
}

#[test]
fn len_and_is_empty() {
    let mut reg = ObjectIdRegistry::new();
    assert!(reg.is_empty());
    assert_eq!(reg.len(), 0);
    reg.register("x", h(1), 0);
    assert!(!reg.is_empty());
    assert_eq!(reg.len(), 1);
}

#[test]
fn with_registry_mut_auto_init() {
    // Reset to ensure clean state
    let mut slot: Option<ObjectIdRegistry> = Some(ObjectIdRegistry::new());
    reset_registry(&mut slot);
    let len = with_registry_mut(&mut slot, |r| r.len());
    assert_eq!(len, Some(0));
}

#[test]
fn with_registry_before_init_returns_none() {
    let mut slot: Option<ObjectIdRegistry> = Some(ObjectIdRegistry::new());
    reset_registry(&mut slot);
    let result = with_registry(&slot, |r| r.len());
    assert_eq!(result, None);
}

#[test]
fn generated_numbering_ignores_other_operations() {
    let mut reg = ObjectIdRegistry::new();
    reg.register("x", h(1), 0);
    assert_eq!(reg.generate_id("A"), "A__g0001");
    assert!(reg.update_handle("x", h(2)));
    assert!(reg.remove("x").is_some());
    reg.register("y", h(3), 1);
    reg.clear();
    assert_eq!(reg.generate_id("B"), "B__g0002");
    assert_eq!(reg.generate_id("A"), "A__g0003");
}

#[test]
fn len_counts_mapped_handles_after_overwrites() {
    let mut reg = ObjectIdRegistry::new();
    reg.register("a", h(10), 0);
    reg.register("b", h(10), 0);
    reg.register("b", h(20), 0);
    reg.register("c", h(30), 1);
    assert_eq!(reg.len(), 2);
    let mapped = [10u64, 20, 30, 40]
        .iter()
        .filter(|v| reg.find_id_by_handle(h(**v)).is_some())
        .count();
    assert_eq!(mapped, reg.len());
    assert!(reg.find_by_id("a").is_none());
}
