use dc_mods::events::category::EventCategory as ExtCategory;
use dc_mods::events::event::item_type_name;
use dc_mods::events::event_id::EventId as ExtId;
use dc_mods::events::payload::{CustomEmployeeEventData, ServerInstalledData};
use dc_mods::events::{EventCategory, EventId};

#[test]
fn legacy_ids_roundtrip_and_names() {
    assert_eq!(EventId::from_raw(100), Some(EventId::MoneyChanged));
    assert_eq!(EventId::MoneyChanged.as_u32(), 100);
    assert_eq!(EventId::WallPurchased.name(), "WallPurchased");
    assert_eq!(EventId::from_raw(1000), None);
    assert_eq!(EventCategory::Time.as_str(), "Time");
}

#[test]
fn extended_ids_include_mod_systems() {
    assert_eq!(ExtId::from_raw(1000), Some(ExtId::CustomEmployeeHired));
    assert_eq!(ExtId::from_raw(211), Some(ExtId::ObjectSpawned));
    assert_eq!(ExtId::CustomEmployeeFired.category(), ExtCategory::ModSystems);
    assert_eq!(ExtCategory::ModSystems.as_str(), "ModSystems");
    assert_eq!(ExtId::all().len(), 32);
}

#[test]
fn every_id_is_in_its_category_hundred() {
    for id in ExtId::all() {
        let raw = id.as_u32();
        assert_eq!(ExtId::from_raw(raw), Some(id));
        assert!(!id.name().is_empty());
    }
}

#[test]
fn item_type_names() {
    assert_eq!(item_type_name(1), "Server1U");
    assert_eq!(item_type_name(2), "Server7U");
    assert_eq!(item_type_name(0), "None");
    assert_eq!(item_type_name(9), "SFPBox");
    assert_eq!(item_type_name(-5), "Unknown");
}

#[test]
fn payload_text_ids_stop_at_nul() {
    let mut raw = [0u8; 64];
    raw[..9].copy_from_slice(b"sysadmin\0");
    raw[9] = b'x';
    let data = CustomEmployeeEventData { employee_id: raw };
    assert_eq!(data.id(), "sysadmin");

    let mut raw2 = [b'a'; 64];
    raw2[63] = b'b';
    let full = ServerInstalledData { server_id: raw2, object_type: 1, rack_position_uid: 3 };
    assert_eq!(full.id().len(), 64);
}

#[test]
fn payload_text_ids_reject_invalid_utf8() {
    let mut raw = [0u8; 64];
    raw[0] = 0xFF;
    raw[1] = b'a';
    let data = CustomEmployeeEventData { employee_id: raw };
    assert_eq!(data.id(), "");
    let mut raw2 = [0u8; 64];
    raw2[..3].copy_from_slice("é!".as_bytes());
    let ok = CustomEmployeeEventData { employee_id: raw2 };
    assert_eq!(ok.id(), "é!");
}
