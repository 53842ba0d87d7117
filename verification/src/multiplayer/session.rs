//! Session handshake and teardown: what the local state does on relay events
//! and on the `Hello` / `Welcome` / `Goodbye` messages. The caller sends the
//! replies and destroys the entities these functions hand back.

use vstd::prelude::*;

use super::player::{lists_entities, PlayerTracker, PlayerStateSnapshot, PlayerView};
use super::state::{JoinState, MultiplayerState, SaveState, SessionState, HELLO_MAX_RETRIES};

verus! {

/// Full disconnect: every remote player's entity is handed back for
/// destruction, and the session, roster, save transfer and action sequence
/// return to their idle values. The local Steam identifier, the local save's
/// hash, the rack-UID flag and the carry state are kept.
pub fn do_disconnect_cleanup<A>(state: &mut MultiplayerState<A>) -> (entity_ids: Vec<u32>)
    requires
        old(state).wf(),
    ensures
        final(state).wf(),
        exists|ids: Seq<u64>| #[trigger] lists_entities(old(state).tracker.players(), entity_ids@, ids),
        forall|i: int| 0 <= i < entity_ids@.len() ==> old(state).tracker.has_entity(#[trigger] entity_ids@[i]),
        forall|id: u64| #[trigger]
            old(state).tracker.players().contains_key(id) && old(state).tracker.players()[id].1 is Some
                ==> entity_ids@.contains(old(state).tracker.players()[id].1.unwrap()),
        final(state).tracker.players() == Map::<u64, PlayerView>::empty(),
        final(state).session.peer_id == 0,
        !final(state).session.connected,
        !final(state).session.connecting,
        !final(state).session.is_host,
        final(state).session.room_code is None,
        !final(state).session.join_ok_received,
        final(state).session.hello_retry_count == 0,
        final(state).session.join_state == JoinState::Idle,
        final(state).session.last_sent_player_state == PlayerStateSnapshot::spec_default(),
        final(state).session.my_id == old(state).session.my_id,
        final(state).session.rack_uids_ensured == old(state).session.rack_uids_ensured,
        final(state).save.transfers@.len() == 0,
        final(state).save.outgoing is None,
        final(state).save.chunk_count == 0,
        final(state).save.incoming_total == 0,
        final(state).save.incoming_chunk_count == 0,
        final(state).save.incoming_data@.len() == 0,
        final(state).save.incoming_received@.len() == 0,
        final(state).save.data_ready is None,
        !final(state).save.loaded,
        !final(state).save.skip_next_request,
        !final(state).save.up_to_date,
        final(state).save.local_hash == old(state).save.local_hash,
        final(state).world_sync.next_seq == 1,
        final(state).world_sync.pending().len() == 0,
        final(state).world_sync.game_time == 0,
        final(state).executing_remote_action == old(state).executing_remote_action,
{
    let entity_ids = state.tracker.get_all_entity_ids();

    state.session.peer_id = 0;
    state.session.connected = false;
    state.session.connecting = false;
    state.session.is_host = false;
    state.session.room_code = None;
    state.session.join_ok_received = false;
    state.session.hello_retry_count = 0;
    state.session.join_state = JoinState::Idle;
    state.session.last_sent_player_state = PlayerStateSnapshot::idle();

    state.tracker = PlayerTracker::new();

    state.save.transfers.clear();
    state.save.outgoing = None;
    state.save.chunk_count = 0;
    state.save.incoming_total = 0;
    state.save.incoming_chunk_count = 0;
    state.save.incoming_data.clear();
    state.save.incoming_received.clear();
    state.save.data_ready = None;
    state.save.loaded = false;
    state.save.skip_next_request = false;
    state.save.up_to_date = false;
    proof {
        crate::assoc::lemma_assoc_empty(state.save.transfers@);
    }

    state.world_sync.reset();

    entity_ids
}

/// The relay created a room for the host: its code is kept.
pub fn on_room_created<A>(state: &mut MultiplayerState<A>, code: String)
    ensures
        final(state).session.room_code matches Some(c) && c@ == code@,
        final(state).session.peer_id == old(state).session.peer_id,
        final(state).session.connected == old(state).session.connected,
        final(state).session.join_state == old(state).session.join_state,
        final(state).tracker == old(state).tracker,
        final(state).save == old(state).save,
        final(state).world_sync == old(state).world_sync,
{
    state.session.room_code = Some(code);
}

/// The relay admitted the client into the host's room: the host becomes the
/// peer, and the `Hello` handshake (re)starts with no retries counted.
pub fn on_join_ok<A>(state: &mut MultiplayerState<A>, host_steam_id: u64)
    ensures
        final(state).session.peer_id == host_steam_id,
        final(state).session.join_ok_received,
        final(state).session.hello_retry_count == 0,
        final(state).session.connected == old(state).session.connected,
        final(state).session.connecting == old(state).session.connecting,
        final(state).session.is_host == old(state).session.is_host,
        final(state).session.join_state == old(state).session.join_state,
        final(state).tracker == old(state).tracker,
        final(state).save == old(state).save,
        final(state).world_sync == old(state).world_sync,
{
    state.session.peer_id = host_steam_id;
    state.session.join_ok_received = true;
    state.session.hello_retry_count = 0;
}

/// A client's `Hello` reaches the host: the client becomes the connected peer
/// and joins the roster. Returns whether to answer with `Welcome`; clients
/// ignore `Hello` and return `false`.
pub fn handle_hello<A>(state: &mut MultiplayerState<A>, sender: u64, player_name: String) -> (welcome: bool)
    requires
        old(state).wf(),
    ensures
        final(state).wf(),
        welcome == old(state).session.is_host,
        !welcome ==> *final(state) == *old(state),
        welcome ==> {
            &&& final(state).session.peer_id == sender
            &&& final(state).session.connected
            &&& !final(state).session.connecting
            &&& final(state).tracker.players() == old(state).tracker.players().insert(
                sender,
                if old(state).tracker.players().contains_key(sender) {
                    (player_name@, old(state).tracker.players()[sender].1, old(state).tracker.players()[sender].2)
                } else {
                    (player_name@, None, PlayerStateSnapshot::spec_default())
                },
            )
            &&& final(state).tracker.players().contains_key(sender)
            &&& final(state).tracker.players()[sender].0 == player_name@
            &&& final(state).session.is_host
            &&& final(state).session.join_state == old(state).session.join_state
            &&& final(state).session == (SessionState {
                peer_id: sender,
                connected: true,
                connecting: false,
                ..old(state).session
            })
        },
        final(state).save == old(state).save,
        final(state).carry == old(state).carry,
        final(state).world_sync == old(state).world_sync,
        final(state).executing_remote_action == old(state).executing_remote_action,
{
    if !state.session.is_host {
        return false;
    }
    state.session.peer_id = sender;
    state.session.connected = true;
    state.session.connecting = false;
    state.tracker.add_player(sender, player_name);
    true
}

/// What a client does after the host's `Welcome`.
#[derive(Clone, Copy, PartialEq, Eq, Debug, Structural)]
pub enum WelcomeOutcome {
    /// The host ignores `Welcome`.
    Ignored,
    /// Reconnecting with the save already loaded: the client is `Loaded`.
    Rejoined,
    /// The client waits for the save and must send `RequestSave` to the host.
    RequestSave,
}

/// The host's `Welcome` reaches a client: it is connected, the host joins
/// the roster, and the client either rejoins directly (when a save request
/// was to be skipped) or waits for the save.
pub fn handle_welcome<A>(state: &mut MultiplayerState<A>, sender: u64, player_name: String) -> (o: WelcomeOutcome)
    requires
        old(state).wf(),
    ensures
        final(state).wf(),
        old(state).session.is_host <==> o == WelcomeOutcome::Ignored,
        o == WelcomeOutcome::Ignored ==> *final(state) == *old(state),
        o != WelcomeOutcome::Ignored ==> {
            &&& final(state).session.connected
            &&& !final(state).session.connecting
            &&& !final(state).session.join_ok_received
            &&& final(state).tracker.players() == old(state).tracker.players().insert(
                sender,
                if old(state).tracker.players().contains_key(sender) {
                    (player_name@, old(state).tracker.players()[sender].1, old(state).tracker.players()[sender].2)
                } else {
                    (player_name@, None, PlayerStateSnapshot::spec_default())
                },
            )
            &&& final(state).tracker.players().contains_key(sender)
            &&& final(state).tracker.players()[sender].0 == player_name@
            &&& !final(state).save.skip_next_request
            &&& final(state).session.peer_id == old(state).session.peer_id
            &&& final(state).session == (SessionState {
                connected: true,
                connecting: false,
                join_ok_received: false,
                join_state: final(state).session.join_state,
                ..old(state).session
            })
            &&& final(state).save == (SaveState { skip_next_request: false, ..old(state).save })
        },
        final(state).carry == old(state).carry,
        final(state).world_sync == old(state).world_sync,
        final(state).executing_remote_action == old(state).executing_remote_action,
        o == WelcomeOutcome::Rejoined <==> !old(state).session.is_host && old(state).save.skip_next_request,
        o == WelcomeOutcome::Rejoined ==> final(state).session.join_state == JoinState::Loaded,
        o == WelcomeOutcome::RequestSave ==> final(state).session.join_state == JoinState::WaitingForSave,
{
    if state.session.is_host {
        return WelcomeOutcome::Ignored;
    }
    state.session.connected = true;
    state.session.connecting = false;
    state.session.join_ok_received = false;
    state.tracker.add_player(sender, player_name);
    if state.save.skip_next_request {
        state.save.skip_next_request = false;
        state.session.join_state = JoinState::Loaded;
        WelcomeOutcome::Rejoined
    } else {
        state.session.join_state = JoinState::WaitingForSave;
        WelcomeOutcome::RequestSave
    }
}

/// A peer says goodbye: it leaves the roster (its entity, if any, is handed
/// back) and, if it was the connected peer, the session forgets it.
pub fn handle_goodbye<A>(state: &mut MultiplayerState<A>, sender: u64) -> (entity: Option<u32>)
    requires
        old(state).wf(),
    ensures
        final(state).wf(),
        entity == (if old(state).tracker.players().contains_key(sender) {
            old(state).tracker.players()[sender].1
        } else {
            None
        }),
        final(state).tracker.players() == old(state).tracker.players().remove(sender),
        old(state).session.peer_id == sender ==> final(state).session.peer_id == 0
            && !final(state).session.connected,
        old(state).session.peer_id == sender ==> final(state).session == (SessionState {
            peer_id: 0,
            connected: false,
            ..old(state).session
        }),
        old(state).session.peer_id != sender ==> final(state).session == old(state).session,
        final(state).save == old(state).save,
        final(state).carry == old(state).carry,
        final(state).world_sync == old(state).world_sync,
        final(state).executing_remote_action == old(state).executing_remote_action,
{
    let eid = state.tracker.remove_player_with_entity(sender);
    if state.session.peer_id == sender {
        state.session.peer_id = 0;
        state.session.connected = false;
    }
    eid
}

/// A client's `Hello` retry timer ran out: the retry is counted, and past
/// `HELLO_MAX_RETRIES` the handshake is abandoned. Returns the retry number
/// to send, or `None` when no retry is due: for the host, when not
/// connecting, already connected, before the relay admitted the client, or
/// after giving up.
pub fn on_hello_retry_due<A>(state: &mut MultiplayerState<A>) -> (retry: Option<u32>)
    ensures
        ({
            let s = old(state).session;
            let waiting = !s.is_host && s.connecting && !s.connected && s.join_ok_received;
            &&& !waiting ==> *final(state) == *old(state) && retry is None
            &&& waiting && s.hello_retry_count < HELLO_MAX_RETRIES ==> retry == Some(
                (s.hello_retry_count + 1) as u32,
            ) && final(state).session.hello_retry_count == s.hello_retry_count + 1
                && final(state).session.connecting && final(state).session.join_ok_received
            &&& waiting && s.hello_retry_count >= HELLO_MAX_RETRIES ==> retry is None
                && !final(state).session.connecting && !final(state).session.join_ok_received
        }),
        final(state).tracker == old(state).tracker,
        final(state).save == old(state).save,
        final(state).session.peer_id == old(state).session.peer_id,
        final(state).session.join_state == old(state).session.join_state,
{
    let s = &state.session;
    if s.is_host || !s.connecting || s.connected || !s.join_ok_received {
        return None;
    }
    state.session.hello_retry_count = state.session.hello_retry_count.saturating_add(1);
    if state.session.hello_retry_count > HELLO_MAX_RETRIES {
        state.session.connecting = false;
        state.session.join_ok_received = false;
        return None;
    }
    Some(state.session.hello_retry_count)
}

/// The local player's visible state is `current`. It is sent when it
/// differs from what was last sent or when the heartbeat is due, and is then
/// remembered as sent. Returns whether to send it.
pub fn should_send_player_state<A>(
    state: &mut MultiplayerState<A>,
    current: PlayerStateSnapshot,
    heartbeat_due: bool,
) -> (send: bool)
    ensures
        send == (current != old(state).session.last_sent_player_state || heartbeat_due),
        final(state).session.last_sent_player_state == if send {
            current
        } else {
            old(state).session.last_sent_player_state
        },
        final(state).session == (SessionState {
            last_sent_player_state: final(state).session.last_sent_player_state,
            ..old(state).session
        }),
        final(state).tracker == old(state).tracker,
        final(state).save == old(state).save,
        final(state).world_sync == old(state).world_sync,
        final(state).carry == old(state).carry,
        final(state).executing_remote_action == old(state).executing_remote_action,
{
    let changed = current != state.session.last_sent_player_state;
    if changed || heartbeat_due {
        state.session.last_sent_player_state = current;
        true
    } else {
        false
    }
}

/// The host has not yet made sure every rack position has a UID.
pub fn needs_rack_uids<A>(state: &MultiplayerState<A>) -> (b: bool)
    ensures
        b == (state.session.is_host && !state.session.rack_uids_ensured),
{
    state.session.is_host && !state.session.rack_uids_ensured
}

/// Whether a relayed game message is for the local player: messages for
/// everyone (`target` 0) are, and so is every message while the local
/// Steam identifier is not yet known (0); otherwise only those addressed to
/// `my_id`.
pub fn message_is_for_me(my_id: u64, target: u64) -> (b: bool)
    ensures
        b == (target == 0 || my_id == 0 || target == my_id),
{
    target == 0 || my_id == 0 || target == my_id
}

/// The local player starts hosting: it waits for the relay's room code.
pub fn begin_hosting<A>(state: &mut MultiplayerState<A>)
    ensures
        final(state).session == (SessionState {
            is_host: true,
            connecting: true,
            connected: false,
            join_ok_received: false,
            hello_retry_count: 0,
            room_code: None,
            ..old(state).session
        }),
        final(state).tracker == old(state).tracker,
        final(state).save == old(state).save,
        final(state).carry == old(state).carry,
        final(state).world_sync == old(state).world_sync,
        final(state).executing_remote_action == old(state).executing_remote_action,
{
    state.session.is_host = true;
    state.session.connecting = true;
    state.session.connected = false;
    state.session.join_ok_received = false;
    state.session.hello_retry_count = 0;
    state.session.room_code = None;
}

/// The local player starts joining the room `code`: any previous incoming
/// save is forgotten.
pub fn begin_joining<A>(state: &mut MultiplayerState<A>, code: String)
    requires
        old(state).wf(),
    ensures
        final(state).wf(),
        final(state).session == (SessionState {
            is_host: false,
            connecting: true,
            connected: false,
            join_ok_received: false,
            hello_retry_count: 0,
            room_code: Some(code),
            ..old(state).session
        }),
        !final(state).save.loaded,
        final(state).save.data_ready is None,
        final(state).save.incoming_total == 0,
        final(state).save.incoming_chunk_count == 0,
        final(state).save.incoming_data@.len() == 0,
        final(state).save.incoming_received@.len() == 0,
        !final(state).save.up_to_date,
        final(state).save.outgoing == old(state).save.outgoing,
        final(state).save.transfers == old(state).save.transfers,
        final(state).save.chunk_count == old(state).save.chunk_count,
        final(state).save.local_hash == old(state).save.local_hash,
        final(state).save.skip_next_request == old(state).save.skip_next_request,
        final(state).tracker == old(state).tracker,
        final(state).world_sync == old(state).world_sync,
{
    state.session.is_host = false;
    state.session.connecting = true;
    state.session.connected = false;
    state.session.join_ok_received = false;
    state.session.hello_retry_count = 0;
    state.session.room_code = Some(code);
    state.save.loaded = false;
    state.save.data_ready = None;
    state.save.incoming_total = 0;
    state.save.incoming_chunk_count = 0;
    state.save.incoming_data.clear();
    state.save.incoming_received.clear();
    state.save.up_to_date = false;
}

/// The local player leaves the session: every remote player's entity is
/// handed back for destruction; the session, roster and save transfers
/// return to idle (the pending world actions, the local Steam identifier,
/// the local save's hash and the last sent visual state are kept).
pub fn local_disconnect<A>(state: &mut MultiplayerState<A>) -> (entity_ids: Vec<u32>)
    requires
        old(state).wf(),
    ensures
        final(state).wf(),
        exists|ids: Seq<u64>| #[trigger] lists_entities(old(state).tracker.players(), entity_ids@, ids),
        forall|i: int| 0 <= i < entity_ids@.len() ==> old(state).tracker.has_entity(#[trigger] entity_ids@[i]),
        forall|id: u64| #[trigger]
            old(state).tracker.players().contains_key(id) && old(state).tracker.players()[id].1 is Some
                ==> entity_ids@.contains(old(state).tracker.players()[id].1.unwrap()),
        final(state).session == (SessionState {
            peer_id: 0,
            connected: false,
            connecting: false,
            is_host: false,
            room_code: None,
            join_ok_received: false,
            hello_retry_count: 0,
            rack_uids_ensured: false,
            join_state: JoinState::Idle,
            ..old(state).session
        }),
        final(state).tracker.players() == Map::<u64, PlayerView>::empty(),
        final(state).save.transfers@.len() == 0,
        final(state).save.outgoing is None,
        final(state).save.chunk_count == 0,
        final(state).save.incoming_total == 0,
        final(state).save.incoming_chunk_count == 0,
        final(state).save.incoming_data@.len() == 0,
        final(state).save.incoming_received@.len() == 0,
        final(state).save.data_ready is None,
        !final(state).save.loaded,
        !final(state).save.skip_next_request,
        !final(state).save.up_to_date,
        final(state).save.local_hash == old(state).save.local_hash,
        final(state).world_sync == old(state).world_sync,
        final(state).executing_remote_action == old(state).executing_remote_action,
{
    let entity_ids = state.tracker.get_all_entity_ids();
    state.session.peer_id = 0;
    state.session.connected = false;
    state.session.connecting = false;
    state.session.is_host = false;
    state.session.room_code = None;
    state.session.join_ok_received = false;
    state.session.hello_retry_count = 0;
    state.session.rack_uids_ensured = false;
    state.session.join_state = JoinState::Idle;
    state.tracker = PlayerTracker::new();
    state.save.skip_next_request = false;
    state.save.transfers.clear();
    state.save.outgoing = None;
    state.save.chunk_count = 0;
    state.save.incoming_total = 0;
    state.save.incoming_chunk_count = 0;
    state.save.incoming_data.clear();
    state.save.incoming_received.clear();
    state.save.data_ready = None;
    state.save.loaded = false;
    state.save.up_to_date = false;
    proof {
        crate::assoc::lemma_assoc_empty(state.save.transfers@);
    }
    entity_ids
}

/// The game reports the join state with code `code` (unknown codes read as
/// `Idle`). On entering `Loaded` the players' entities belong to the scene
/// that was left and are forgotten; returns whether that happened, so that
/// the caller refreshes what it derives from the new scene.
pub fn set_join_state<A>(state: &mut MultiplayerState<A>, code: u32) -> (entered_loaded: bool)
    requires
        old(state).wf(),
    ensures
        final(state).wf(),
        final(state).session.join_state == JoinState::spec_from_u32(code),
        entered_loaded == (JoinState::spec_from_u32(code) == JoinState::Loaded
            && old(state).session.join_state != JoinState::Loaded),
        final(state).session == (SessionState {
            join_state: JoinState::spec_from_u32(code),
            ..old(state).session
        }),
        entered_loaded ==> final(state).tracker.players().dom() == old(state).tracker.players().dom()
            && forall|id: u64| #[trigger] final(state).tracker.players().contains_key(id)
                ==> final(state).tracker.players()[id] == (old(state).tracker.players()[id].0, None::<u32>, old(state).tracker.players()[id].2),
        !entered_loaded ==> final(state).tracker == old(state).tracker,
        final(state).save == old(state).save,
        final(state).world_sync == old(state).world_sync,
{
    let new_state = JoinState::from_u32(code);
    let old_state = state.session.join_state;
    state.session.join_state = new_state;
    if new_state == JoinState::Loaded && old_state != JoinState::Loaded {
        state.tracker.clear_entity_ids();
        true
    } else {
        false
    }
}

/// A client the relay admitted that is still waiting for the host's
/// `Welcome`: its `Hello` retry timer runs only then.
pub fn awaiting_welcome<A>(state: &MultiplayerState<A>) -> (b: bool)
    ensures
        b == (!state.session.is_host && state.session.connecting && !state.session.connected
            && state.session.join_ok_received),
{
    !state.session.is_host && state.session.connecting && !state.session.connected
        && state.session.join_ok_received
}

/// Whether the local player is in the shared world: the host always is, a
/// client once its scene has loaded. Avatars are only driven then.
pub fn in_shared_world<A>(state: &MultiplayerState<A>) -> (b: bool)
    ensures
        b == (state.session.is_host || state.session.join_state == JoinState::Loaded),
{
    state.session.is_host || state.session.join_state == JoinState::Loaded
}

} // verus!
