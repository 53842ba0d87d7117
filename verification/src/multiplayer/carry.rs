//! Detecting when the local player picks an object up or puts it down, from
//! the number of objects in hand frame by frame.

use vstd::prelude::*;

use super::state::{CarryState, JoinState, MultiplayerState};

verus! {

/// What a change in the number of carried objects calls for.
#[derive(Debug, PartialEq, Eq)]
pub enum CarryAction {
    /// Nothing to report.
    Nothing,
    /// Hands went from empty to full: the caller asks the game which object
    /// is held and reports it with [`record_pickup`].
    Pickup,
    /// Hands emptied right after a rack install, which is not a drop.
    DropSuppressed,
    /// Hands emptied: the held object was dropped and is reported.
    Drop { object_id: String, object_type: u8 },
}

/// Whether carry changes are reported now: connected, in the world (the host,
/// or a client that has loaded), and not replaying a remote action.
pub open spec fn carry_tracking_active<A>(state: MultiplayerState<A>) -> bool {
    &&& state.session.connected
    &&& (state.session.is_host || state.session.join_state == JoinState::Loaded)
    &&& !state.executing_remote_action
}

/// Whether local world events (installs, spawns, carries) are sent to the
/// other players now (see [`carry_tracking_active`]).
pub fn world_events_active<A>(state: &MultiplayerState<A>) -> (b: bool)
    ensures
        b == carry_tracking_active(*state),
{
    state.session.connected && (state.session.is_host || state.session.join_state == JoinState::Loaded)
        && !state.executing_remote_action
}

/// The number of objects in hand is now `cur_num`. While tracking is not
/// active only the count is recorded. Otherwise going from none to some is a
/// pick-up, going from some to none a drop (or the end of a rack install,
/// when a drop is to be suppressed), and the held object is forgotten on a
/// drop.
pub fn detect_carry_transition<A>(state: &mut MultiplayerState<A>, cur_num: u8) -> (a: CarryAction)
    ensures
        final(state).carry.prev_count == cur_num,
        final(state).session == old(state).session,
        final(state).save == old(state).save,
        final(state).tracker == old(state).tracker,
        final(state).world_sync == old(state).world_sync,
        final(state).executing_remote_action == old(state).executing_remote_action,
        final(state).carry.last_install_id == old(state).carry.last_install_id,
        ({
            let prev = old(state).carry.prev_count;
            let active = carry_tracking_active(*old(state));
            let pickup = active && prev == 0 && cur_num > 0;
            let drop = active && prev > 0 && cur_num == 0;
            let held = old(state).carry.held_id@;
            &&& pickup ==> a == CarryAction::Pickup
            &&& !pickup && !drop ==> a == CarryAction::Nothing
            &&& !drop ==> final(state).carry.held_id == old(state).carry.held_id
                && final(state).carry.held_type == old(state).carry.held_type
                && final(state).carry.suppress_next_drop == old(state).carry.suppress_next_drop
            &&& drop && old(state).carry.suppress_next_drop ==> a == CarryAction::DropSuppressed
            &&& drop && !old(state).carry.suppress_next_drop && held.len() == 0 ==> a
                == CarryAction::Nothing
            &&& drop && !old(state).carry.suppress_next_drop && held.len() > 0 ==> (a matches CarryAction::Drop {
                object_id,
                object_type,
            } && object_id@ == held && object_type == old(state).carry.held_type)
            &&& drop ==> final(state).carry.held_id@.len() == 0 && final(state).carry.held_type == 0
                && !final(state).carry.suppress_next_drop
        }),
{
    let active = state.session.connected && (state.session.is_host || state.session.join_state
        == JoinState::Loaded) && !state.executing_remote_action;
    let prev = state.carry.prev_count;
    state.carry.prev_count = cur_num;
    if !active || prev == cur_num {
        return CarryAction::Nothing;
    }
    if prev == 0 && cur_num > 0 {
        return CarryAction::Pickup;
    }
    if prev > 0 && cur_num == 0 {
        if state.carry.suppress_next_drop {
            state.carry.suppress_next_drop = false;
            state.carry.held_id = String::new();
            state.carry.held_type = 0;
            return CarryAction::DropSuppressed;
        }
        let mut id = String::new();
        std::mem::swap(&mut id, &mut state.carry.held_id);
        let ty = state.carry.held_type;
        state.carry.held_type = 0;
        if id.as_str().is_empty() {
            return CarryAction::Nothing;
        }
        return CarryAction::Drop { object_id: id, object_type: ty };
    }
    CarryAction::Nothing
}

/// After a pick-up, the object the game says is held. An empty identifier is
/// not recorded and returns `false`; otherwise it becomes the held object and
/// the pick-up is to be reported (`true`).
pub fn record_pickup(carry: &mut CarryState, object_id: String, object_type: u8) -> (report: bool)
    ensures
        report == (object_id@.len() > 0),
        report ==> final(carry).held_id@ == object_id@ && final(carry).held_type == object_type,
        !report ==> final(carry).held_id == old(carry).held_id && final(carry).held_type == old(
            carry
        ).held_type,
        final(carry).prev_count == old(carry).prev_count,
        final(carry).suppress_next_drop == old(carry).suppress_next_drop,
        final(carry).last_install_id == old(carry).last_install_id,
{
    if object_id.as_str().is_empty() {
        return false;
    }
    carry.held_id = object_id;
    carry.held_type = object_type;
    true
}

/// A server was installed in a rack by the local player: the drop that the
/// install causes is not to be reported, and the installed object is noted.
pub fn note_rack_install(carry: &mut CarryState, server_id: String)
    ensures
        final(carry).suppress_next_drop,
        final(carry).last_install_id@ == server_id@,
        final(carry).prev_count == old(carry).prev_count,
        final(carry).held_id == old(carry).held_id,
        final(carry).held_type == old(carry).held_type,
{
    carry.suppress_next_drop = true;
    carry.last_install_id = server_id;
}

} // verus!
