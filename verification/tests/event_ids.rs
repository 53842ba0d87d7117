use dc_mods::events::category::EventCategory;
use dc_mods::events::event_id::EventId;

#[test]
fn event_id_all_contains_every_variant() {
    assert_eq!(EventId::all().len(), 32);
}

#[test]
fn roundtrip_all() {
    for id in EventId::all() {
        assert_eq!(
            EventId::from_raw(id.as_u32()),
            Some(id),
            "roundtrip failed for {:?} ({})",
            id,
            id.as_u32()
        );
    }
}

#[test]
fn unknown_returns_none() {
    assert_eq!(EventId::from_raw(0), None);
    assert_eq!(EventId::from_raw(99), None);
    assert_eq!(EventId::from_raw(199), None);
    assert_eq!(EventId::from_raw(999), None);
    assert_eq!(EventId::from_raw(9999), None);
    assert_eq!(EventId::from_raw(u32::MAX), None);
}

#[test]
fn display_format() {
    assert_eq!(EventId::MoneyChanged.to_display(), "MoneyChanged(100)");
    assert_eq!(EventId::ServerPowered.to_display(), "ServerPowered(200)");
    assert_eq!(EventId::DayEnded.to_display(), "DayEnded(300)");
    assert_eq!(
        EventId::CustomerAccepted.to_display(),
        "CustomerAccepted(400)"
    );
    assert_eq!(EventId::ShopCheckout.to_display(), "ShopCheckout(500)");
    assert_eq!(EventId::EmployeeHired.to_display(), "EmployeeHired(600)");
    assert_eq!(EventId::GameLoaded.to_display(), "GameLoaded(701)");
    assert_eq!(EventId::WallPurchased.to_display(), "WallPurchased(800)");
    assert_eq!(
        EventId::CustomEmployeeHired.to_display(),
        "CustomEmployeeHired(1000)"
    );
    assert_eq!(
        EventId::CustomEmployeeFired.to_display(),
        "CustomEmployeeFired(1001)"
    );
    assert_eq!(EventId::ObjectSpawned.to_display(), "ObjectSpawned(211)");
}

#[test]
fn no_duplicate_ids() {
    let mut seen = std::collections::HashSet::new();
    for id in EventId::all() {
        assert!(
            seen.insert(id.as_u32()),
            "duplicate numeric ID: {} ({:?})",
            id.as_u32(),
            id
        );
    }
}

#[test]
fn no_duplicate_names() {
    let mut seen = std::collections::HashSet::new();
    for id in EventId::all() {
        assert!(
            seen.insert(id.name()),
            "duplicate name: {:?} ({:?})",
            id.name(),
            id
        );
    }
}

#[test]
fn name_is_non_empty() {
    for id in EventId::all() {
        assert!(!id.name().is_empty(), "empty name for {:?}", id);
    }
}

#[test]
fn ids_in_correct_category_range() {
    for id in EventId::all() {
        let raw = id.as_u32();
        let expected_range = match id.category() {
            EventCategory::Economy => 100..200,
            EventCategory::Server => 200..300,
            EventCategory::Time => 300..400,
            EventCategory::Customer => 400..500,
            EventCategory::Shop => 500..600,
            EventCategory::Employee => 600..700,
            EventCategory::Persistence => 700..800,
            EventCategory::Building => 800..900,
            EventCategory::ModSystems => 1000..1100,
        };
        assert!(
            expected_range.contains(&raw),
            "{:?} (id={}) not in expected range {:?} for category {:?}",
            id,
            raw,
            expected_range,
            id.category()
        );
    }
}

#[test]
fn categories_per_event() {
    // economy
    assert_eq!(EventId::MoneyChanged.category(), EventCategory::Economy);
    assert_eq!(EventId::XpChanged.category(), EventCategory::Economy);
    assert_eq!(
        EventId::ReputationChanged.category(),
        EventCategory::Economy
    );

    // server
    assert_eq!(EventId::ServerPowered.category(), EventCategory::Server);
    assert_eq!(EventId::ServerBroken.category(), EventCategory::Server);
    assert_eq!(EventId::ServerRepaired.category(), EventCategory::Server);
    assert_eq!(EventId::ServerInstalled.category(), EventCategory::Server);
    assert_eq!(EventId::CableConnected.category(), EventCategory::Server);
    assert_eq!(EventId::CableDisconnected.category(), EventCategory::Server);
    assert_eq!(
        EventId::ServerCustomerChanged.category(),
        EventCategory::Server
    );
    assert_eq!(EventId::ServerAppChanged.category(), EventCategory::Server);
    assert_eq!(EventId::RackUnmounted.category(), EventCategory::Server);
    assert_eq!(EventId::SwitchBroken.category(), EventCategory::Server);
    assert_eq!(EventId::SwitchRepaired.category(), EventCategory::Server);
    assert_eq!(EventId::ObjectSpawned.category(), EventCategory::Server);

    // time
    assert_eq!(EventId::DayEnded.category(), EventCategory::Time);
    assert_eq!(EventId::MonthEnded.category(), EventCategory::Time);

    // customer
    assert_eq!(
        EventId::CustomerAccepted.category(),
        EventCategory::Customer
    );
    assert_eq!(
        EventId::CustomerSatisfied.category(),
        EventCategory::Customer
    );
    assert_eq!(
        EventId::CustomerUnsatisfied.category(),
        EventCategory::Customer
    );

    // shop
    assert_eq!(EventId::ShopCheckout.category(), EventCategory::Shop);
    assert_eq!(EventId::ShopItemAdded.category(), EventCategory::Shop);
    assert_eq!(EventId::ShopCartCleared.category(), EventCategory::Shop);
    assert_eq!(EventId::ShopItemRemoved.category(), EventCategory::Shop);

    // employee
    assert_eq!(EventId::EmployeeHired.category(), EventCategory::Employee);
    assert_eq!(EventId::EmployeeFired.category(), EventCategory::Employee);

    // persistence
    assert_eq!(EventId::GameSaved.category(), EventCategory::Persistence);
    assert_eq!(EventId::GameLoaded.category(), EventCategory::Persistence);
    assert_eq!(
        EventId::GameAutoSaved.category(),
        EventCategory::Persistence
    );

    // building
    assert_eq!(EventId::WallPurchased.category(), EventCategory::Building);

    // mod systems
    assert_eq!(
        EventId::CustomEmployeeHired.category(),
        EventCategory::ModSystems
    );
    assert_eq!(
        EventId::CustomEmployeeFired.category(),
        EventCategory::ModSystems
    );
}
