use dc_mods::events::{EventCategory, EventId};

#[test]
fn events_all_contains_every_variant() {
    // if you add a new EventId variant, add it to ALL too
    assert_eq!(EventId::all().len(), 29);
}

#[test]
fn event_id_roundtrip() {
    for id in EventId::all() {
        assert_eq!(
            EventId::from_raw(id.as_u32()),
            Some(id),
            "roundtrip failed for {:?}",
            id
        );
    }
}

#[test]
fn event_id_unknown_returns_none() {
    assert_eq!(EventId::from_raw(9999), None);
    assert_eq!(EventId::from_raw(0), None);
    assert_eq!(EventId::from_raw(199), None);
}

#[test]
fn event_id_display() {
    assert_eq!(EventId::MoneyChanged.to_display(), "MoneyChanged(100)");
    assert_eq!(EventId::GameLoaded.to_display(), "GameLoaded(701)");
    assert_eq!(EventId::ShopCheckout.to_display(), "ShopCheckout(500)");
}

#[test]
fn event_id_categories() {
    assert_eq!(EventId::MoneyChanged.category(), EventCategory::Economy);
    assert_eq!(EventId::XpChanged.category(), EventCategory::Economy);
    assert_eq!(
        EventId::ReputationChanged.category(),
        EventCategory::Economy
    );
    assert_eq!(EventId::ServerPowered.category(), EventCategory::Server);
    assert_eq!(EventId::ServerBroken.category(), EventCategory::Server);
    assert_eq!(EventId::ServerRepaired.category(), EventCategory::Server);
    assert_eq!(EventId::ServerInstalled.category(), EventCategory::Server);
    assert_eq!(EventId::CableConnected.category(), EventCategory::Server);
    assert_eq!(EventId::CableDisconnected.category(), EventCategory::Server);
    assert_eq!(
        EventId::ServerCustomerChanged.category(),
        EventCategory::Server
    );
    assert_eq!(EventId::ServerAppChanged.category(), EventCategory::Server);
    assert_eq!(EventId::RackUnmounted.category(), EventCategory::Server);
    assert_eq!(EventId::SwitchBroken.category(), EventCategory::Server);
    assert_eq!(EventId::SwitchRepaired.category(), EventCategory::Server);
    assert_eq!(EventId::DayEnded.category(), EventCategory::Time);
    assert_eq!(EventId::MonthEnded.category(), EventCategory::Time);
    assert_eq!(
        EventId::CustomerAccepted.category(),
        EventCategory::Customer
    );
    assert_eq!(
        EventId::CustomerSatisfied.category(),
        EventCategory::Customer
    );
    assert_eq!(
        EventId::CustomerUnsatisfied.category(),
        EventCategory::Customer
    );
    assert_eq!(EventId::ShopCheckout.category(), EventCategory::Shop);
    assert_eq!(EventId::ShopItemAdded.category(), EventCategory::Shop);
    assert_eq!(EventId::ShopCartCleared.category(), EventCategory::Shop);
    assert_eq!(EventId::ShopItemRemoved.category(), EventCategory::Shop);
    assert_eq!(EventId::EmployeeHired.category(), EventCategory::Employee);
    assert_eq!(EventId::EmployeeFired.category(), EventCategory::Employee);
    assert_eq!(EventId::GameSaved.category(), EventCategory::Persistence);
    assert_eq!(EventId::GameLoaded.category(), EventCategory::Persistence);
    assert_eq!(
        EventId::GameAutoSaved.category(),
        EventCategory::Persistence
    );
    assert_eq!(EventId::WallPurchased.category(), EventCategory::Building);
}

#[test]
fn event_category_display() {
    assert_eq!(EventCategory::Economy.as_str(), "Economy");
    assert_eq!(EventCategory::Persistence.as_str(), "Persistence");
    assert_eq!(EventCategory::Building.as_str(), "Building");
}
