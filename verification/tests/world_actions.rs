use dc_mods::multiplayer::entities::{
    carry_visual_update, lifecycle_step, prefab_index, CarryVisualUpdate, LifecycleKind,
    COLLIDER_DELAY_MS, UMA_RETRY_TIMEOUT_MS,
};
use dc_mods::multiplayer::player::PlayerTracker;
use dc_mods::multiplayer::sync::{validate_world_action, ActionKind};
use dc_mods::multiplayer::player::fallback_name;

#[test]
fn host_validation_rules() {
    assert!(validate_world_action(ActionKind::ObjectPickedUp, "srv", 0, false));
    assert!(!validate_world_action(ActionKind::ObjectPickedUp, "", 0, false));
    assert!(validate_world_action(ActionKind::InstalledInRack, "srv", 0, false));
    assert!(!validate_world_action(ActionKind::InstalledInRack, "srv", -1, false));
    assert!(!validate_world_action(ActionKind::InstalledInRack, "", 5, false));
    assert!(validate_world_action(ActionKind::ObjectDropped, "srv", -1, false));
    assert!(!validate_world_action(ActionKind::ObjectDropped, "srv", 0, true));
    assert!(validate_world_action(ActionKind::CableConnected, "", -7, true));
    assert!(validate_world_action(ActionKind::CableDisconnected, "", 0, false));
    assert!(!validate_world_action(ActionKind::ObjectDestroyed, "", 0, false));
}

#[test]
fn prefab_is_steam_id_modulo_count() {
    assert_eq!(prefab_index(10, Some(4)), 2);
    assert_eq!(prefab_index(10, Some(0)), 0);
    assert_eq!(prefab_index(10, None), 0);
    assert_eq!(prefab_index(u64::MAX, Some(u32::MAX)), (u64::MAX % u32::MAX as u64) as u32);
}

#[test]
fn avatar_lifecycle_decisions() {
    assert_eq!(lifecycle_step(false, Some(UMA_RETRY_TIMEOUT_MS + 1), None, false, true), LifecycleKind::UmaRetry);
    assert_eq!(lifecycle_step(false, Some(UMA_RETRY_TIMEOUT_MS), None, false, true), LifecycleKind::Nothing);
    assert_eq!(lifecycle_step(false, None, None, false, true), LifecycleKind::Nothing);
    assert_eq!(lifecycle_step(true, None, Some(COLLIDER_DELAY_MS + 1), false, true), LifecycleKind::AddCollider);
    assert_eq!(lifecycle_step(true, None, Some(COLLIDER_DELAY_MS + 1), false, false), LifecycleKind::Nothing);
    assert_eq!(lifecycle_step(true, None, Some(COLLIDER_DELAY_MS + 1), true, true), LifecycleKind::Nothing);
    assert_eq!(lifecycle_step(true, None, Some(COLLIDER_DELAY_MS), false, true), LifecycleKind::Nothing);
}

#[test]
fn carry_visual_follows_item_in_hand() {
    assert_eq!(
        carry_visual_update(0, 4),
        CarryVisualUpdate { applied: 4, destroy_old: false, create: Some(4) }
    );
    assert_eq!(
        carry_visual_update(4, 1),
        CarryVisualUpdate { applied: 1, destroy_old: true, create: Some(1) }
    );
    assert_eq!(
        carry_visual_update(4, 0),
        CarryVisualUpdate { applied: 0, destroy_old: true, create: None }
    );
    assert_eq!(
        carry_visual_update(3, 3),
        CarryVisualUpdate { applied: 3, destroy_old: false, create: None }
    );
}

#[test]
fn broadcast_skips_the_sender() {
    let mut r = PlayerTracker::new();
    r.add_player(1, "a".to_string());
    r.add_player(2, "b".to_string());
    r.add_player(3, "c".to_string());
    r.add_player(2, "b2".to_string());
    let mut all = r.broadcast_targets(None);
    all.sort();
    assert_eq!(all, vec![1, 2, 3]);
    let mut others = r.broadcast_targets(Some(2));
    others.sort();
    assert_eq!(others, vec![1, 3]);
    assert_eq!(r.player_count(), 3);
}

#[test]
fn fallback_names_use_last_four_digits() {
    assert_eq!(fallback_name(76561198000012345), "Player_2345");
    assert_eq!(fallback_name(10007), "Player_7");
    assert_eq!(fallback_name(0), "Player_0");
}

#[test]
fn roster_lookups_and_forgetting_entities() {
    let mut r = PlayerTracker::new();
    r.add_player(5, "eve".to_string());
    assert_eq!(r.entity_of(5), None);
    r.set_entity_id(5, 50);
    assert_eq!(r.entity_of(5), Some(50));
    assert_eq!(r.name_of(5).as_deref(), Some("eve"));
    assert_eq!(r.name_of(6), None);
    r.forget_entity(5);
    assert_eq!(r.entity_of(5), None);
    assert!(r.has_player(5));
    r.forget_entity(6);
    assert_eq!(r.player_count(), 1);
}
