use dc_mods::text::{decimal_len, push_decimal, push_zero_padded};
use dc_mods::world::registry::ObjectIdRegistry;

#[test]
fn decimal_rendering() {
    let mut s = String::from("n=");
    push_decimal(&mut s, 0);
    push_decimal(&mut s, 4_294_967_295);
    assert_eq!(s, "n=04294967295");
    assert_eq!(decimal_len(0), 1);
    assert_eq!(decimal_len(9), 1);
    assert_eq!(decimal_len(10), 2);
    assert_eq!(decimal_len(u32::MAX), 10);
}

#[test]
fn zero_padding_widens_short_numbers_only() {
    let mut s = String::new();
    push_zero_padded(&mut s, 7, 4);
    assert_eq!(s, "0007");
    let mut t = String::new();
    push_zero_padded(&mut t, 123456, 4);
    assert_eq!(t, "123456");
}

#[test]
fn generated_ids_never_repeat() {
    let mut reg = ObjectIdRegistry::new();
    let mut seen = std::collections::HashSet::new();
    for _ in 0..12000 {
        assert!(seen.insert(reg.generate_id("Srv")));
    }
    assert!(seen.contains("Srv__g9999"));
    assert!(seen.contains("Srv__g10000"));
    assert!(seen.contains("Srv__g12000"));
}
