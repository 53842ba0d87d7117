use dc_mods::multiplayer::carry::{
    detect_carry_transition, note_rack_install, record_pickup, world_events_active, CarryAction,
};
use dc_mods::multiplayer::player::PlayerStateSnapshot;
use dc_mods::multiplayer::player::is_stale_after;
use dc_mods::multiplayer::session::{
    do_disconnect_cleanup, handle_goodbye, handle_hello, handle_welcome, needs_rack_uids,
    on_hello_retry_due, on_join_ok, on_room_created, should_send_player_state, WelcomeOutcome,
};
use dc_mods::multiplayer::state::{
    init_state, with_state, JoinState, MultiplayerState, HELLO_MAX_RETRIES,
};
use dc_mods::multiplayer::session::local_disconnect;
use dc_mods::multiplayer::sync::ActionKind;
use dc_mods::multiplayer::session::awaiting_welcome;
use dc_mods::multiplayer::session::in_shared_world;
use dc_mods::multiplayer::session::message_is_for_me;
use dc_mods::multiplayer::session::set_join_state;
use dc_mods::multiplayer::session::{begin_hosting, begin_joining};

fn host() -> MultiplayerState<()> {
    let mut s = MultiplayerState::new();
    s.session.is_host = true;
    s
}

#[test]
fn join_state_codes_roundtrip() {
    for code in 0..6u32 {
        assert_eq!(JoinState::from_u32(code).as_u32(), code);
    }
    assert_eq!(JoinState::from_u32(6), JoinState::Idle);
    assert_eq!(JoinState::from_u32(u32::MAX), JoinState::Idle);
    assert_eq!(JoinState::from_u32(5), JoinState::Loaded);
}

#[test]
fn hello_is_answered_by_host_only() {
    let mut h = host();
    assert!(handle_hello(&mut h, 42, "alice".to_string()));
    assert!(h.session.connected);
    assert_eq!(h.session.peer_id, 42);
    assert!(h.tracker.has_player(42));

    let mut c: MultiplayerState<()> = MultiplayerState::new();
    assert!(!handle_hello(&mut c, 42, "alice".to_string()));
    assert!(!c.session.connected);
    assert_eq!(c.tracker.player_count(), 0);
}

#[test]
fn welcome_requests_save_or_rejoins() {
    let mut c: MultiplayerState<()> = MultiplayerState::new();
    c.session.connecting = true;
    assert_eq!(handle_welcome(&mut c, 1, "host".to_string()), WelcomeOutcome::RequestSave);
    assert_eq!(c.session.join_state, JoinState::WaitingForSave);
    assert!(c.session.connected && !c.session.connecting);

    let mut r: MultiplayerState<()> = MultiplayerState::new();
    r.save.skip_next_request = true;
    assert_eq!(handle_welcome(&mut r, 1, "host".to_string()), WelcomeOutcome::Rejoined);
    assert_eq!(r.session.join_state, JoinState::Loaded);
    assert!(!r.save.skip_next_request);

    let mut h = host();
    assert_eq!(handle_welcome(&mut h, 1, "x".to_string()), WelcomeOutcome::Ignored);
}

#[test]
fn goodbye_returns_entity_and_forgets_peer() {
    let mut h = host();
    handle_hello(&mut h, 7, "bob".to_string());
    h.tracker.set_entity_id(7, 900);
    assert_eq!(handle_goodbye(&mut h, 7), Some(900));
    assert!(!h.session.connected);
    assert_eq!(h.session.peer_id, 0);
    assert_eq!(handle_goodbye(&mut h, 7), None);
}

#[test]
fn hello_retries_give_up_after_limit() {
    let mut c: MultiplayerState<()> = MultiplayerState::new();
    c.session.connecting = true;
    on_join_ok(&mut c, 555);
    assert_eq!(c.session.peer_id, 555);
    for n in 1..=HELLO_MAX_RETRIES {
        assert_eq!(on_hello_retry_due(&mut c), Some(n));
    }
    assert_eq!(on_hello_retry_due(&mut c), None);
    assert!(!c.session.connecting);
    assert!(!c.session.join_ok_received);
    assert_eq!(on_hello_retry_due(&mut c), None);
}

#[test]
fn disconnect_cleanup_hands_back_entities() {
    let mut h = host();
    on_room_created(&mut h, "ABC234".to_string());
    assert_eq!(h.session.room_code.as_deref(), Some("ABC234"));
    handle_hello(&mut h, 1, "a".to_string());
    handle_hello(&mut h, 2, "b".to_string());
    h.tracker.set_entity_id(1, 11);
    h.tracker.set_entity_id(2, 22);
    h.session.my_id = 99;
    h.world_sync.next_seq();
    let mut ids = do_disconnect_cleanup(&mut h);
    ids.sort();
    assert_eq!(ids, vec![11, 22]);
    assert!(!h.session.is_host && !h.session.connected);
    assert!(h.session.room_code.is_none());
    assert_eq!(h.session.my_id, 99);
    assert_eq!(h.tracker.player_count(), 0);
    assert_eq!(h.world_sync.next_seq, 1);
}

#[test]
fn disconnect_cleanup_lists_each_entity_once() {
    let mut h = host();
    handle_hello(&mut h, 1, "a".to_string());
    handle_hello(&mut h, 2, "b".to_string());
    handle_hello(&mut h, 3, "c".to_string());
    h.tracker.set_entity_id(1, 11);
    h.tracker.set_entity_id(3, 33);
    h.tracker.set_entity_id(3, 34);
    let mut ids = do_disconnect_cleanup(&mut h);
    ids.sort();
    assert_eq!(ids, vec![11, 34]);
}

#[test]
fn player_state_sent_on_change_or_heartbeat() {
    let mut s: MultiplayerState<()> = MultiplayerState::new();
    let idle = PlayerStateSnapshot::idle();
    assert!(!should_send_player_state(&mut s, idle, false));
    assert!(should_send_player_state(&mut s, idle, true));
    let crouch = PlayerStateSnapshot { is_crouching: true, ..idle };
    assert!(should_send_player_state(&mut s, crouch, false));
    assert_eq!(s.session.last_sent_player_state, crouch);
    assert!(!should_send_player_state(&mut s, crouch, false));
}

#[test]
fn rack_uids_needed_by_host_until_ensured() {
    let mut h = host();
    assert!(needs_rack_uids(&h));
    h.session.rack_uids_ensured = true;
    assert!(!needs_rack_uids(&h));
    let c: MultiplayerState<()> = MultiplayerState::new();
    assert!(!needs_rack_uids(&c));
}

#[test]
fn state_slot_is_initialised_once() {
    let mut slot: Option<MultiplayerState<()>> = None;
    assert_eq!(with_state(&mut slot, |s| s.session.peer_id), None);
    init_state(&mut slot);
    with_state(&mut slot, |s| s.session.peer_id = 5);
    init_state(&mut slot);
    assert_eq!(with_state(&mut slot, |s| s.session.peer_id), Some(5));
}

#[test]
fn carry_pickup_and_drop_are_detected() {
    let mut s = host();
    s.session.connected = true;
    assert!(world_events_active(&s));
    assert_eq!(detect_carry_transition(&mut s, 1), CarryAction::Pickup);
    assert!(record_pickup(&mut s.carry, "srv-1".to_string(), 1));
    assert_eq!(detect_carry_transition(&mut s, 1), CarryAction::Nothing);
    assert_eq!(
        detect_carry_transition(&mut s, 0),
        CarryAction::Drop { object_id: "srv-1".to_string(), object_type: 1 }
    );
    assert!(s.carry.held_id.is_empty());
}

#[test]
fn drop_after_rack_install_is_suppressed() {
    let mut s = host();
    s.session.connected = true;
    detect_carry_transition(&mut s, 1);
    record_pickup(&mut s.carry, "srv-2".to_string(), 3);
    note_rack_install(&mut s.carry, "srv-2".to_string());
    assert_eq!(detect_carry_transition(&mut s, 0), CarryAction::DropSuppressed);
    assert!(!s.carry.suppress_next_drop);
    assert_eq!(s.carry.last_install_id, "srv-2");
}

#[test]
fn carry_not_tracked_while_inactive() {
    let mut c: MultiplayerState<()> = MultiplayerState::new();
    c.session.connected = true;
    assert!(!world_events_active(&c));
    assert_eq!(detect_carry_transition(&mut c, 2), CarryAction::Nothing);
    assert_eq!(c.carry.prev_count, 2);
    assert!(!record_pickup(&mut c.carry, String::new(), 4));
    c.session.join_state = JoinState::Loaded;
    assert!(world_events_active(&c));
    c.executing_remote_action = true;
    assert!(!world_events_active(&c));
}

#[test]
fn messages_for_others_are_dropped() {
    assert!(message_is_for_me(5, 0));
    assert!(message_is_for_me(0, 9));
    assert!(message_is_for_me(5, 5));
    assert!(!message_is_for_me(5, 6));
}

#[test]
fn hosting_and_joining_reset_the_handshake() {
    let mut s: MultiplayerState<()> = MultiplayerState::new();
    s.session.hello_retry_count = 4;
    s.session.room_code = Some("OLD123".to_string());
    begin_hosting(&mut s);
    assert!(s.session.is_host && s.session.connecting && !s.session.connected);
    assert_eq!(s.session.hello_retry_count, 0);
    assert!(s.session.room_code.is_none());

    s.save.loaded = true;
    s.save.up_to_date = true;
    s.save.local_hash = 77;
    begin_joining(&mut s, "ABC234".to_string());
    assert!(!s.session.is_host && s.session.connecting);
    assert_eq!(s.session.room_code.as_deref(), Some("ABC234"));
    assert!(!s.save.loaded && !s.save.up_to_date);
    assert_eq!(s.save.local_hash, 77);
}

#[test]
fn local_disconnect_keeps_pending_actions() {
    let mut h = host();
    handle_hello(&mut h, 3, "c".to_string());
    h.tracker.set_entity_id(3, 33);
    h.session.rack_uids_ensured = true;
    h.world_sync.send_action(ActionKind::PowerToggled, "srv".to_string(), ());
    assert_eq!(local_disconnect(&mut h), vec![33]);
    assert!(!h.session.is_host && !h.session.connected);
    assert!(!h.session.rack_uids_ensured);
    assert_eq!(h.session.join_state, JoinState::Idle);
    assert_eq!(h.tracker.player_count(), 0);
    assert_eq!(h.world_sync.pending_actions.len(), 1);
}

#[test]
fn entering_loaded_forgets_entities() {
    let mut c: MultiplayerState<()> = MultiplayerState::new();
    c.tracker.add_player(8, "host".to_string());
    c.tracker.set_entity_id(8, 80);
    assert!(!set_join_state(&mut c, 1));
    assert_eq!(c.session.join_state, JoinState::WaitingForSave);
    assert_eq!(c.tracker.get_all_entity_ids(), vec![80]);
    assert!(set_join_state(&mut c, 5));
    assert!(c.tracker.get_all_entity_ids().is_empty());
    assert!(c.tracker.has_player(8));
    assert!(!set_join_state(&mut c, 5));
    assert!(!set_join_state(&mut c, 42));
    assert_eq!(c.session.join_state, JoinState::Idle);
}

#[test]
fn only_admitted_waiting_clients_await_welcome() {
    let mut c: MultiplayerState<()> = MultiplayerState::new();
    assert!(!awaiting_welcome(&c));
    c.session.connecting = true;
    assert!(!awaiting_welcome(&c));
    on_join_ok(&mut c, 9);
    assert!(awaiting_welcome(&c));
    handle_welcome(&mut c, 9, "h".to_string());
    assert!(!awaiting_welcome(&c));
}

#[test]
fn shared_world_means_host_or_loaded() {
    let mut c: MultiplayerState<()> = MultiplayerState::new();
    assert!(!in_shared_world(&c));
    c.session.join_state = JoinState::Loaded;
    assert!(in_shared_world(&c));
    assert!(in_shared_world(&host()));
}

#[test]
fn player_stale_only_after_ten_seconds() {
    assert!(!is_stale_after(0));
    assert!(!is_stale_after(10));
    assert!(is_stale_after(11));
}
