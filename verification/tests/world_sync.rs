use dc_mods::multiplayer::sync::{ActionKind, AckOutcome, WorldSyncState, WORLD_ACTION_TIMEOUT_MS};

/// What a test action carries for its undo.
#[derive(Debug, Clone, PartialEq)]
enum Undo {
    Nothing,
    PowerToggle { object_id: String, was_on: bool },
    Pickup { object_id: String, original_pos: (f32, f32, f32) },
}

fn fresh() -> WorldSyncState<Undo> {
    WorldSyncState::new()
}

#[test]
fn test_new_initial_state() {
    let state = fresh();
    assert_eq!(state.next_seq, 1);
    assert!(state.pending_actions.is_empty());
    assert_eq!(state.game_time, 0);
}

#[test]
fn test_default_equals_new() {
    let a = fresh();
    let b: WorldSyncState<Undo> = WorldSyncState::default();
    assert_eq!(a.next_seq, b.next_seq);
    assert_eq!(a.pending_actions.len(), b.pending_actions.len());
    assert_eq!(a.game_time, b.game_time);
}

#[test]
fn test_next_seq_increments() {
    let mut state = fresh();
    assert_eq!(state.next_seq(), 1);
    assert_eq!(state.next_seq(), 2);
    assert_eq!(state.next_seq(), 3);
}

#[test]
fn test_next_seq_wraps_and_skips_zero() {
    let mut state = fresh();
    state.next_seq = u32::MAX;
    assert_eq!(state.next_seq(), u32::MAX);
    assert_eq!(state.next_seq, 1);
    assert_eq!(state.next_seq(), 1);
    assert_eq!(state.next_seq(), 2);
}

#[test]
fn test_next_seq_wraps_from_max_minus_one() {
    let mut state = fresh();
    state.next_seq = u32::MAX - 1;
    assert_eq!(state.next_seq(), u32::MAX - 1);
    assert_eq!(state.next_seq(), u32::MAX);
    assert_eq!(state.next_seq(), 1);
}

#[test]
fn test_register_pending_adds_action() {
    let mut state = fresh();
    state.game_time = 10_000;
    state.register_pending(1, ActionKind::ObjectPickedUp, "srv_1".to_string(), Undo::Nothing);

    assert_eq!(state.pending_actions.len(), 1);
    assert_eq!(state.pending_actions[0].seq, 1);
    assert_eq!(state.pending_actions[0].sent_at, 10_000);
}

#[test]
fn test_register_multiple_pending() {
    let mut state = fresh();
    state.game_time = 1000;
    state.register_pending(1, ActionKind::ObjectPickedUp, "a".to_string(), Undo::Nothing);
    state.game_time = 2000;
    state.register_pending(2, ActionKind::ObjectPickedUp, "b".to_string(), Undo::Nothing);
    state.game_time = 3000;
    state.register_pending(3, ActionKind::ObjectPickedUp, "c".to_string(), Undo::Nothing);

    assert_eq!(state.pending_actions.len(), 3);
    assert_eq!(state.pending_actions[0].seq, 1);
    assert_eq!(state.pending_actions[1].seq, 2);
    assert_eq!(state.pending_actions[2].seq, 3);
}

#[test]
fn test_register_pending_stores_rollback_info() {
    let mut state = fresh();
    let rollback = Undo::PowerToggle { object_id: "srv_1".into(), was_on: true };
    state.register_pending(1, ActionKind::ObjectPickedUp, "srv_1".to_string(), rollback);

    assert_eq!(state.pending_actions.len(), 1);
    match &state.pending_actions[0].action {
        Undo::PowerToggle { object_id, was_on } => {
            assert_eq!(object_id, "srv_1");
            assert!(was_on);
        }
        other => panic!("Expected UndoPowerToggle, got {:?}", other),
    }
}

#[test]
fn test_remove_pending_returns_correct_action() {
    let mut state = fresh();
    state.register_pending(10, ActionKind::ObjectPickedUp, "a".to_string(), Undo::Nothing);
    state.register_pending(20, ActionKind::ObjectPickedUp, "b".to_string(), Undo::Nothing);
    state.register_pending(30, ActionKind::ObjectPickedUp, "c".to_string(), Undo::Nothing);

    let removed = state.remove_pending(20);
    assert!(removed.is_some());
    assert_eq!(removed.unwrap().seq, 20);
    assert_eq!(state.pending_actions.len(), 2);
}

#[test]
fn test_remove_pending_nonexistent_returns_none() {
    let mut state = fresh();
    state.register_pending(1, ActionKind::ObjectPickedUp, "a".to_string(), Undo::Nothing);

    let removed = state.remove_pending(999);
    assert!(removed.is_none());
    assert_eq!(state.pending_actions.len(), 1);
}

#[test]
fn test_remove_pending_preserves_order() {
    let mut state = fresh();
    state.register_pending(1, ActionKind::ObjectPickedUp, "a".to_string(), Undo::Nothing);
    state.register_pending(2, ActionKind::ObjectPickedUp, "b".to_string(), Undo::Nothing);
    state.register_pending(3, ActionKind::ObjectPickedUp, "c".to_string(), Undo::Nothing);

    state.remove_pending(2);
    assert_eq!(state.pending_actions.len(), 2);
    assert_eq!(state.pending_actions[0].seq, 1);
    assert_eq!(state.pending_actions[1].seq, 3);
}

#[test]
fn test_remove_pending_first_match_only() {
    let mut state = fresh();
    state.register_pending(5, ActionKind::ObjectPickedUp, "a".to_string(), Undo::Nothing);
    state.register_pending(5, ActionKind::ObjectPickedUp, "b".to_string(), Undo::Nothing);

    let removed = state.remove_pending(5);
    assert!(removed.is_some());
    assert_eq!(removed.unwrap().object_id, "a");
    assert_eq!(state.pending_actions.len(), 1);
    assert_eq!(state.pending_actions[0].object_id, "b");
}

#[test]
fn test_drain_timed_out_returns_expired() {
    let mut state = fresh();
    state.game_time = 0;
    state.register_pending(1, ActionKind::ObjectPickedUp, "old".to_string(), Undo::Nothing);

    state.game_time = WORLD_ACTION_TIMEOUT_MS + 1000;

    let timed_out = state.drain_timed_out();
    assert_eq!(timed_out.len(), 1);
    assert_eq!(timed_out[0].seq, 1);
    assert!(state.pending_actions.is_empty());
}

#[test]
fn test_drain_timed_out_keeps_fresh() {
    let mut state = fresh();
    state.game_time = 0;
    state.register_pending(1, ActionKind::ObjectPickedUp, "old".to_string(), Undo::Nothing);

    state.game_time = 3000;
    state.register_pending(2, ActionKind::ObjectPickedUp, "fresh".to_string(), Undo::Nothing);

    state.game_time = WORLD_ACTION_TIMEOUT_MS + 1000;

    let timed_out = state.drain_timed_out();
    assert_eq!(timed_out.len(), 1);
    assert_eq!(timed_out[0].seq, 1);
    assert_eq!(state.pending_actions.len(), 1);
    assert_eq!(state.pending_actions[0].seq, 2);
}

#[test]
fn test_drain_timed_out_none_expired() {
    let mut state = fresh();
    state.game_time = 10_000;
    state.register_pending(1, ActionKind::ObjectPickedUp, "a".to_string(), Undo::Nothing);
    state.register_pending(2, ActionKind::ObjectPickedUp, "b".to_string(), Undo::Nothing);

    state.game_time = 11_000;

    let timed_out = state.drain_timed_out();
    assert!(timed_out.is_empty());
    assert_eq!(state.pending_actions.len(), 2);
}

#[test]
fn test_drain_timed_out_all_expired() {
    let mut state = fresh();
    state.game_time = 0;
    state.register_pending(1, ActionKind::ObjectPickedUp, "a".to_string(), Undo::Nothing);
    state.game_time = 1000;
    state.register_pending(2, ActionKind::ObjectPickedUp, "b".to_string(), Undo::Nothing);
    state.game_time = 2000;
    state.register_pending(3, ActionKind::ObjectPickedUp, "c".to_string(), Undo::Nothing);

    state.game_time = 100_000;

    let timed_out = state.drain_timed_out();
    assert_eq!(timed_out.len(), 3);
    assert!(state.pending_actions.is_empty());
}

#[test]
fn test_drain_timed_out_exact_boundary() {
    let mut state = fresh();
    state.game_time = 0;
    state.register_pending(1, ActionKind::ObjectPickedUp, "a".to_string(), Undo::Nothing);

    state.game_time = WORLD_ACTION_TIMEOUT_MS;

    let timed_out = state.drain_timed_out();
    assert_eq!(timed_out.len(), 1, "Action at exact timeout boundary should be drained");
}

#[test]
fn test_drain_timed_out_just_before_boundary() {
    let mut state = fresh();
    state.game_time = 0;
    state.register_pending(1, ActionKind::ObjectPickedUp, "a".to_string(), Undo::Nothing);

    state.game_time = WORLD_ACTION_TIMEOUT_MS - 1;

    let timed_out = state.drain_timed_out();
    assert!(timed_out.is_empty(), "Action just before timeout should NOT be drained");
    assert_eq!(state.pending_actions.len(), 1);
}

#[test]
fn test_drain_timed_out_preserves_rollback_info() {
    let mut state = fresh();
    state.game_time = 0;
    let rollback = Undo::Pickup { object_id: "srv_1".into(), original_pos: (1.0, 2.0, 3.0) };
    state.register_pending(1, ActionKind::ObjectPickedUp, "srv_1".to_string(), rollback);

    state.game_time = WORLD_ACTION_TIMEOUT_MS + 1000;
    let timed_out = state.drain_timed_out();
    assert_eq!(timed_out.len(), 1);
    match &timed_out[0].action {
        Undo::Pickup { object_id, original_pos } => {
            assert_eq!(object_id, "srv_1");
            assert_eq!(*original_pos, (1.0, 2.0, 3.0));
        }
        other => panic!("Expected UndoPickup, got {:?}", other),
    }
}

#[test]
fn test_has_pending_for_object_found() {
    let mut state = fresh();
    state.register_pending(1, ActionKind::ObjectPickedUp, "target".to_string(), Undo::Nothing);
    assert!(state.has_pending_for_object("target"));
}

#[test]
fn test_has_pending_for_object_not_found() {
    let mut state = fresh();
    state.register_pending(1, ActionKind::ObjectPickedUp, "other".to_string(), Undo::Nothing);
    assert!(!state.has_pending_for_object("target"));
}

#[test]
fn test_has_pending_for_object_empty() {
    let state = fresh();
    assert!(!state.has_pending_for_object("anything"));
}

#[test]
fn test_has_pending_for_object_multiple_types() {
    let mut state = fresh();
    state.register_pending(1, ActionKind::PowerToggled, "switch_1".to_string(), Undo::Nothing);
    state.register_pending(2, ActionKind::PropertyChanged, "srv_2".to_string(), Undo::Nothing);
    state.register_pending(3, ActionKind::InstalledInRack, "srv_3".to_string(), Undo::Nothing);

    assert!(state.has_pending_for_object("switch_1"));
    assert!(state.has_pending_for_object("srv_2"));
    assert!(state.has_pending_for_object("srv_3"));
    assert!(!state.has_pending_for_object("nonexistent"));
}

#[test]
fn test_has_pending_for_object_ignores_cables() {
    let mut state = fresh();
    state.register_pending(1, ActionKind::CableConnected, "99".to_string(), Undo::Nothing);

    assert!(!state.has_pending_for_object("dev_a"));
    assert!(!state.has_pending_for_object("dev_b"));
    assert!(!state.has_pending_for_object("99"));
}

#[test]
fn test_has_pending_for_object_cable_disconnected() {
    let mut state = fresh();
    state.register_pending(1, ActionKind::CableDisconnected, "7".to_string(), Undo::Nothing);

    assert!(!state.has_pending_for_object("7"));
    assert!(!state.has_pending_for_object("anything"));
}

#[test]
fn test_has_pending_for_object_all_object_variants() {
    let mut state = fresh();
    let id = "test_obj";
    let kinds = [
        ActionKind::ObjectPickedUp,
        ActionKind::ObjectDropped,
        ActionKind::InstalledInRack,
        ActionKind::RemovedFromRack,
        ActionKind::PowerToggled,
        ActionKind::PropertyChanged,
        ActionKind::ObjectSpawned,
        ActionKind::ObjectDestroyed,
    ];
    for (i, kind) in kinds.iter().enumerate() {
        state.register_pending(i as u32 + 1, *kind, id.to_string(), Undo::Nothing);
    }

    assert!(state.has_pending_for_object(id));

    for seq in 1..=7 {
        state.remove_pending(seq);
        assert!(state.has_pending_for_object(id));
    }
    state.remove_pending(8);
    assert!(!state.has_pending_for_object(id));
}

#[test]
fn test_reset_clears_everything() {
    let mut state = fresh();

    state.next_seq = 500;
    state.game_time = 99_000;
    state.register_pending(500, ActionKind::ObjectPickedUp, "a".to_string(), Undo::Nothing);
    state.register_pending(501, ActionKind::ObjectPickedUp, "b".to_string(), Undo::Nothing);

    state.reset();

    assert_eq!(state.next_seq, 1);
    assert!(state.pending_actions.is_empty());
    assert_eq!(state.game_time, 0);
}

#[test]
fn test_reset_allows_reuse() {
    let mut state = fresh();
    state.game_time = 50_000;
    state.register_pending(1, ActionKind::ObjectPickedUp, "a".to_string(), Undo::Nothing);

    state.reset();

    let seq = state.next_seq();
    assert_eq!(seq, 1);
    state.game_time = 1000;
    state.register_pending(seq, ActionKind::ObjectPickedUp, "b".to_string(), Undo::Nothing);
    assert_eq!(state.pending_actions.len(), 1);
    assert_eq!(state.pending_actions[0].seq, 1);
}

#[test]
fn test_full_action_lifecycle() {
    let mut state = fresh();

    state.game_time = 10_000;
    let seq = state.next_seq();
    assert_eq!(seq, 1);
    state.register_pending(
        seq,
        ActionKind::PowerToggled, "switch_1".to_string(),
        Undo::PowerToggle { object_id: "switch_1".into(), was_on: false },
    );

    assert!(state.has_pending_for_object("switch_1"));
    assert_eq!(state.pending_actions.len(), 1);

    state.game_time = 11_000;
    let acked = state.remove_pending(seq);
    assert!(acked.is_some());
    assert!(!state.has_pending_for_object("switch_1"));
    assert!(state.pending_actions.is_empty());

    let timed_out = state.drain_timed_out();
    assert!(timed_out.is_empty());
}

#[test]
fn test_rejected_action_lifecycle() {
    let mut state = fresh();

    state.game_time = 0;
    let seq = state.next_seq();
    state.register_pending(
        seq,
        ActionKind::ObjectPickedUp, "srv_1".to_string(),
        Undo::Pickup { object_id: "srv_1".into(), original_pos: (5.0, 0.5, 3.0) },
    );

    let rejected = state.remove_pending(seq).unwrap();
    match &rejected.action {
        Undo::Pickup { original_pos, .. } => {
            assert_eq!(*original_pos, (5.0, 0.5, 3.0));
        }
        other => panic!("Expected UndoPickup, got {:?}", other),
    }
}

#[test]
fn test_timeout_then_new_actions() {
    let mut state = fresh();

    state.game_time = 0;
    let old_seq = state.next_seq();
    state.register_pending(old_seq, ActionKind::ObjectPickedUp, "old_obj".to_string(), Undo::Nothing);

    state.game_time = 4000;
    let new_seq = state.next_seq();
    state.register_pending(new_seq, ActionKind::ObjectPickedUp, "new_obj".to_string(), Undo::Nothing);

    state.game_time = 6000;
    let timed_out = state.drain_timed_out();
    assert_eq!(timed_out.len(), 1);
    assert_eq!(timed_out[0].seq, old_seq);

    assert_eq!(state.pending_actions.len(), 1);
    assert_eq!(state.pending_actions[0].seq, new_seq);
    assert!(state.has_pending_for_object("new_obj"));
    assert!(!state.has_pending_for_object("old_obj"));
}

#[test]
fn send_action_registers_under_fresh_number() {
    let mut state = fresh();
    state.game_time = 2500;
    let a = state.send_action(ActionKind::ObjectPickedUp, "srv_9".to_string(), Undo::Nothing);
    let b = state.send_action(ActionKind::CableDisconnected, String::new(), Undo::Nothing);
    assert_eq!((a, b), (1, 2));
    assert_eq!(state.pending_actions.len(), 2);
    assert_eq!(state.pending_actions[1].sent_at, 2500);
    assert_eq!(state.next_seq, 3);
}

#[test]
fn ack_outcomes_follow_verdict_and_role() {
    let mut state = fresh();
    let a = state.send_action(ActionKind::ObjectPickedUp, "x".to_string(), Undo::Nothing);
    let b = state.send_action(ActionKind::PowerToggled, "y".to_string(), Undo::PowerToggle { object_id: "y".into(), was_on: true });

    assert!(matches!(state.handle_ack(true, a, true), AckOutcome::Ignored));
    assert_eq!(state.pending_actions.len(), 2);

    match state.handle_ack(false, a, true) {
        AckOutcome::Accepted(p) => assert_eq!(p.seq, a),
        other => panic!("expected Accepted, got {:?}", other),
    }
    match state.handle_ack(false, b, false) {
        AckOutcome::Rejected(p) => {
            assert_eq!(p.action, Undo::PowerToggle { object_id: "y".into(), was_on: true })
        }
        other => panic!("expected Rejected, got {:?}", other),
    }
    assert!(matches!(state.handle_ack(false, b, false), AckOutcome::Unknown));
    assert!(state.pending_actions.is_empty());
}

#[test]
fn advance_time_saturates() {
    let mut state = fresh();
    state.advance_time(1500);
    state.advance_time(250);
    assert_eq!(state.game_time, 1750);
    state.advance_time(u64::MAX);
    assert_eq!(state.game_time, u64::MAX);
}
