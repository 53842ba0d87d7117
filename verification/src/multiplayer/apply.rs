//! Applying world actions that come from other players, and undoing the
//! local player's actions that the host refused or never answered: which
//! game call each one takes, with which identifiers, and the flag that keeps
//! the carry detection from reporting what a remote action does. Positions,
//! rotations and cable end points are floating point; they stay with the
//! caller, which hands them to the game call beside the one returned here.

use vstd::prelude::*;

use super::state::MultiplayerState;
use super::sync::ActionKind;

verus! {

/// A game call that changes the world.
#[derive(Debug, PartialEq, Eq)]
pub enum WorldCall {
    /// Pick the object up.
    Pickup { object_id: String },
    /// Put the object down at the caller's position and rotation.
    Drop { object_id: String },
    /// Install the object in the rack slot.
    PlaceInRack { object_id: String, rack_position_uid: i32 },
    /// Take the object out of its rack slot.
    RemoveFromRack { object_id: String },
    /// Switch the object on or off.
    SetPower { object_id: String, is_on: bool },
    /// Set a property of the object.
    SetProperty { object_id: String, key: String, value: String },
    /// Lay the cable between the two devices (end positions from the caller).
    ConnectCable {
        cable_id: i32,
        start_type: u8,
        start_device_id: String,
        end_type: u8,
        end_device_id: String,
    },
    /// Take the cable away.
    DisconnectCable { cable_id: i32 },
    /// Spawn the object under the given identifier (transform from the caller).
    Spawn { object_id: String, object_type: u8, prefab_id: i32 },
    /// Spawn an object of the type and prefab under a new identifier
    /// (transform from the caller).
    Respawn { object_type: u8, prefab_id: i32 },
    /// Destroy the object.
    Destroy { object_id: String },
}

/// The identifiers and flags a world action carries, beside its
/// floating-point position and rotation. Fields a kind does not use are
/// ignored.
#[derive(Debug)]
pub struct ActionFields {
    pub kind: ActionKind,
    pub object_id: String,
    pub object_type: u8,
    pub prefab_id: i32,
    pub rack_position_uid: i32,
    pub is_on: bool,
    pub key: String,
    pub value: String,
    pub cable_id: i32,
    pub start_type: u8,
    pub start_device_id: String,
    pub end_type: u8,
    pub end_device_id: String,
}

/// `c` is the game call that applies the action `f`: each kind has its
/// call, which carries the action's identifiers unchanged.
pub open spec fn applies(c: WorldCall, f: ActionFields) -> bool {
    match f.kind {
        ActionKind::ObjectPickedUp => c matches WorldCall::Pickup { object_id } && object_id@
            == f.object_id@,
        ActionKind::ObjectDropped => c matches WorldCall::Drop { object_id } && object_id@
            == f.object_id@,
        ActionKind::InstalledInRack => c matches WorldCall::PlaceInRack {
            object_id,
            rack_position_uid,
        } && object_id@ == f.object_id@ && rack_position_uid == f.rack_position_uid,
        ActionKind::RemovedFromRack => c matches WorldCall::RemoveFromRack { object_id }
            && object_id@ == f.object_id@,
        ActionKind::PowerToggled => c matches WorldCall::SetPower { object_id, is_on } && object_id@
            == f.object_id@ && is_on == f.is_on,
        ActionKind::PropertyChanged => c matches WorldCall::SetProperty { object_id, key, value }
            && object_id@ == f.object_id@ && key@ == f.key@ && value@ == f.value@,
        ActionKind::CableConnected => c matches WorldCall::ConnectCable {
            cable_id,
            start_type,
            start_device_id,
            end_type,
            end_device_id,
        } && cable_id == f.cable_id && start_type == f.start_type && start_device_id@
            == f.start_device_id@ && end_type == f.end_type && end_device_id@ == f.end_device_id@,
        ActionKind::CableDisconnected => c matches WorldCall::DisconnectCable { cable_id }
            && cable_id == f.cable_id,
        ActionKind::ObjectSpawned => c matches WorldCall::Spawn { object_id, object_type, prefab_id }
            && object_id@ == f.object_id@ && object_type == f.object_type && prefab_id
            == f.prefab_id,
        ActionKind::ObjectDestroyed => c matches WorldCall::Destroy { object_id } && object_id@
            == f.object_id@,
    }
}

/// The game call that applies a world action received from another player
/// (see [`applies`]).
pub fn world_call_for(f: &ActionFields) -> (c: WorldCall)
    ensures
        applies(c, *f),
{
    match f.kind {
        ActionKind::ObjectPickedUp => WorldCall::Pickup { object_id: f.object_id.clone() },
        ActionKind::ObjectDropped => WorldCall::Drop { object_id: f.object_id.clone() },
        ActionKind::InstalledInRack => WorldCall::PlaceInRack {
            object_id: f.object_id.clone(),
            rack_position_uid: f.rack_position_uid,
        },
        ActionKind::RemovedFromRack => WorldCall::RemoveFromRack { object_id: f.object_id.clone() },
        ActionKind::PowerToggled => WorldCall::SetPower { object_id: f.object_id.clone(), is_on: f.is_on },
        ActionKind::PropertyChanged => WorldCall::SetProperty {
            object_id: f.object_id.clone(),
            key: f.key.clone(),
            value: f.value.clone(),
        },
        ActionKind::CableConnected => WorldCall::ConnectCable {
            cable_id: f.cable_id,
            start_type: f.start_type,
            start_device_id: f.start_device_id.clone(),
            end_type: f.end_type,
            end_device_id: f.end_device_id.clone(),
        },
        ActionKind::CableDisconnected => WorldCall::DisconnectCable { cable_id: f.cable_id },
        ActionKind::ObjectSpawned => WorldCall::Spawn {
            object_id: f.object_id.clone(),
            object_type: f.object_type,
            prefab_id: f.prefab_id,
        },
        ActionKind::ObjectDestroyed => WorldCall::Destroy { object_id: f.object_id.clone() },
    }
}

/// How to undo one of the local player's actions, beside the floating-point
/// position, rotation or cable end points the undo puts back.
#[derive(Debug)]
pub enum Undo {
    /// Nothing to undo.
    Nothing,
    /// A pickup: put the object back down.
    Pickup { object_id: String },
    /// A drop: pick the object up again.
    Drop { object_id: String },
    /// A rack install: take the object out and put it back where it was.
    Install { object_id: String },
    /// A removal from a rack: install the object in its slot again.
    RemoveFromRack { object_id: String, rack_position_uid: i32 },
    /// A power switch: restore the earlier setting.
    PowerToggle { object_id: String, was_on: bool },
    /// A property change: restore the earlier value.
    PropertyChange { object_id: String, key: String, old_value: String },
    /// A cable laid: take it away.
    CableConnect { cable_id: i32 },
    /// A cable taken away: lay it again.
    CableDisconnect {
        cable_id: i32,
        start_type: u8,
        start_device_id: String,
        end_type: u8,
        end_device_id: String,
    },
    /// A spawn: destroy the object.
    Spawn { object_id: String },
    /// A destruction: spawn an object of the same type and prefab.
    Destroy { object_type: u8, prefab_id: i32 },
}

/// `calls` are the game calls that undo `u`, in order.
pub open spec fn undoes(calls: Seq<WorldCall>, u: Undo) -> bool {
    match u {
        Undo::Nothing => calls.len() == 0,
        Undo::Pickup { object_id: id } => calls.len() == 1 && (calls[0] matches WorldCall::Drop {
            object_id,
        } && object_id@ == id@),
        Undo::Drop { object_id: id } => calls.len() == 1 && (calls[0] matches WorldCall::Pickup {
            object_id,
        } && object_id@ == id@),
        Undo::Install { object_id: id } => calls.len() == 2 && (calls[0] matches WorldCall::RemoveFromRack {
            object_id,
        } && object_id@ == id@) && (calls[1] matches WorldCall::Drop { object_id } && object_id@
            == id@),
        Undo::RemoveFromRack { object_id: id, rack_position_uid: uid } => calls.len() == 1 && (
        calls[0] matches WorldCall::PlaceInRack { object_id, rack_position_uid } && object_id@ == id@
            && rack_position_uid == uid),
        Undo::PowerToggle { object_id: id, was_on } => calls.len() == 1 && (
        calls[0] matches WorldCall::SetPower { object_id, is_on } && object_id@ == id@ && is_on
            == was_on),
        Undo::PropertyChange { object_id: id, key: k, old_value } => calls.len() == 1 && (
        calls[0] matches WorldCall::SetProperty { object_id, key, value } && object_id@ == id@
            && key@ == k@ && value@ == old_value@),
        Undo::CableConnect { cable_id: cid } => calls.len() == 1 && (
        calls[0] matches WorldCall::DisconnectCable { cable_id } && cable_id == cid),
        Undo::CableDisconnect {
            cable_id: cid,
            start_type: st,
            start_device_id: sd,
            end_type: et,
            end_device_id: ed,
        } => calls.len() == 1 && (calls[0] matches WorldCall::ConnectCable {
            cable_id,
            start_type,
            start_device_id,
            end_type,
            end_device_id,
        } && cable_id == cid && start_type == st && start_device_id@ == sd@ && end_type == et
            && end_device_id@ == ed@),
        Undo::Spawn { object_id: id } => calls.len() == 1 && (calls[0] matches WorldCall::Destroy {
            object_id,
        } && object_id@ == id@),
        Undo::Destroy { object_type: t, prefab_id: p } => calls.len() == 1 && (
        calls[0] matches WorldCall::Respawn { object_type, prefab_id } && object_type == t
            && prefab_id == p),
    }
}

/// The game calls that undo a refused or unanswered action, in order (see
/// [`undoes`]); none when there is nothing to undo.
pub fn rollback_calls(u: &Undo) -> (calls: Vec<WorldCall>)
    ensures
        undoes(calls@, *u),
{
    match u {
        Undo::Nothing => Vec::new(),
        Undo::Pickup { object_id } => vec![WorldCall::Drop { object_id: object_id.clone() }],
        Undo::Drop { object_id } => vec![WorldCall::Pickup { object_id: object_id.clone() }],
        Undo::Install { object_id } => vec![
            WorldCall::RemoveFromRack { object_id: object_id.clone() },
            WorldCall::Drop { object_id: object_id.clone() },
        ],
        Undo::RemoveFromRack { object_id, rack_position_uid } => vec![
            WorldCall::PlaceInRack { object_id: object_id.clone(), rack_position_uid: *rack_position_uid },
        ],
        Undo::PowerToggle { object_id, was_on } => vec![
            WorldCall::SetPower { object_id: object_id.clone(), is_on: *was_on },
        ],
        Undo::PropertyChange { object_id, key, old_value } => vec![
            WorldCall::SetProperty {
                object_id: object_id.clone(),
                key: key.clone(),
                value: old_value.clone(),
            },
        ],
        Undo::CableConnect { cable_id } => vec![WorldCall::DisconnectCable { cable_id: *cable_id }],
        Undo::CableDisconnect { cable_id, start_type, start_device_id, end_type, end_device_id } => vec![
            WorldCall::ConnectCable {
                cable_id: *cable_id,
                start_type: *start_type,
                start_device_id: start_device_id.clone(),
                end_type: *end_type,
                end_device_id: end_device_id.clone(),
            },
        ],
        Undo::Spawn { object_id } => vec![WorldCall::Destroy { object_id: object_id.clone() }],
        Undo::Destroy { object_type, prefab_id } => vec![
            WorldCall::Respawn { object_type: *object_type, prefab_id: *prefab_id },
        ],
    }
}

/// One object as the world calls see it: whether it is held, its rack slot,
/// whether it is powered, and its properties.
pub type ObjectView = (bool, Option<i32>, bool, Map<Seq<char>, Seq<char>>);

/// The world as the calls see it: the objects by identifier, and the laid
/// cables by identifier with their two ends (type and device each).
pub type WorldView = (Map<Seq<char>, ObjectView>, Map<i32, (u8, Seq<char>, u8, Seq<char>)>);

/// `w` with the object `id` changed by `f`, if it exists.
pub open spec fn on_object(w: WorldView, id: Seq<char>, f: spec_fn(ObjectView) -> ObjectView) -> WorldView {
    if w.0.contains_key(id) {
        (w.0.insert(id, f(w.0[id])), w.1)
    } else {
        w
    }
}

/// What a game call does to the world: a pickup makes the object held and a
/// drop puts it down; an install puts it (not held) in the slot and a removal
/// takes it out of its slot; power and properties are set; a cable is laid
/// with its ends or taken away; a spawn adds a fresh object and a
/// destruction removes it. A respawn adds an object under an identifier the
/// game picks, which this view does not follow.
pub open spec fn call_effect(w: WorldView, c: WorldCall) -> WorldView {
    match c {
        WorldCall::Pickup { object_id } => on_object(w, object_id@, |o: ObjectView| (true, o.1, o.2, o.3)),
        WorldCall::Drop { object_id } => on_object(w, object_id@, |o: ObjectView| (false, o.1, o.2, o.3)),
        WorldCall::PlaceInRack { object_id, rack_position_uid } => on_object(
            w,
            object_id@,
            |o: ObjectView| (false, Some(rack_position_uid), o.2, o.3),
        ),
        WorldCall::RemoveFromRack { object_id } => on_object(
            w,
            object_id@,
            |o: ObjectView| (o.0, None, o.2, o.3),
        ),
        WorldCall::SetPower { object_id, is_on } => on_object(
            w,
            object_id@,
            |o: ObjectView| (o.0, o.1, is_on, o.3),
        ),
        WorldCall::SetProperty { object_id, key, value } => on_object(
            w,
            object_id@,
            |o: ObjectView| (o.0, o.1, o.2, o.3.insert(key@, value@)),
        ),
        WorldCall::ConnectCable { cable_id, start_type, start_device_id, end_type, end_device_id } => (
            w.0,
            w.1.insert(cable_id, (start_type, start_device_id@, end_type, end_device_id@)),
        ),
        WorldCall::DisconnectCable { cable_id } => (w.0, w.1.remove(cable_id)),
        WorldCall::Spawn { object_id, .. } => (
            w.0.insert(object_id@, (false, None, false, Map::empty())),
            w.1,
        ),
        WorldCall::Respawn { .. } => w,
        WorldCall::Destroy { object_id } => (w.0.remove(object_id@), w.1),
    }
}

/// The world after `calls`, in order.
pub open spec fn run_calls(w: WorldView, calls: Seq<WorldCall>) -> WorldView
    decreases calls.len(),
{
    if calls.len() == 0 {
        w
    } else {
        call_effect(run_calls(w, calls.drop_last()), calls.last())
    }
}

/// The world shows the action `f` done: the picked-up object is held, the
/// dropped one is not, the installed one sits in the action's slot, the
/// removed one in none, the power and the property have the action's values,
/// the cable is laid with the action's ends or gone, the spawned object
/// exists and the destroyed one does not.
pub open spec fn shows_action(w: WorldView, f: ActionFields) -> bool {
    let id = f.object_id@;
    match f.kind {
        ActionKind::ObjectPickedUp => w.0.contains_key(id) && w.0[id].0,
        ActionKind::ObjectDropped => w.0.contains_key(id) && !w.0[id].0,
        ActionKind::InstalledInRack => w.0.contains_key(id) && w.0[id].1 == Some(f.rack_position_uid),
        ActionKind::RemovedFromRack => w.0.contains_key(id) && w.0[id].1 is None,
        ActionKind::PowerToggled => w.0.contains_key(id) && w.0[id].2 == f.is_on,
        ActionKind::PropertyChanged => w.0.contains_key(id) && w.0[id].3.contains_key(f.key@)
            && w.0[id].3[f.key@] == f.value@,
        ActionKind::CableConnected => w.1.contains_key(f.cable_id) && w.1[f.cable_id] == (
            f.start_type,
            f.start_device_id@,
            f.end_type,
            f.end_device_id@,
        ),
        ActionKind::CableDisconnected => !w.1.contains_key(f.cable_id),
        ActionKind::ObjectSpawned => w.0.contains_key(id),
        ActionKind::ObjectDestroyed => !w.0.contains_key(id),
    }
}

/// Applying an action received from another player (see [`world_call_for`])
/// makes the world show it, whatever the world was, provided the object it
/// is about exists (for every kind but spawns and cable actions).
pub proof fn lemma_applied_action_shows(w: WorldView, f: ActionFields, c: WorldCall)
    requires
        applies(c, f),
        !(f.kind is ObjectSpawned || f.kind is CableConnected || f.kind is CableDisconnected)
            ==> w.0.contains_key(f.object_id@),
    ensures
        shows_action(call_effect(w, c), f),
{
}

/// `u` is what undoing the action `f`, done in the world `w`, needs to
/// know: the object's earlier state (held or not, rack slot, power, the
/// property's earlier value), or the cable's earlier ends. Undoing a
/// destruction respawns under an identifier the game picks, so it is not
/// covered.
pub open spec fn undo_recorded(w: WorldView, f: ActionFields, u: Undo) -> bool {
    let id = f.object_id@;
    match f.kind {
        ActionKind::ObjectPickedUp => w.0.contains_key(id) && !w.0[id].0 && (u matches Undo::Pickup {
            object_id,
        } && object_id@ == id),
        ActionKind::ObjectDropped => w.0.contains_key(id) && w.0[id].0 && (u matches Undo::Drop {
            object_id,
        } && object_id@ == id),
        ActionKind::InstalledInRack => w.0.contains_key(id) && !w.0[id].0 && w.0[id].1 is None && (
        u matches Undo::Install { object_id } && object_id@ == id),
        ActionKind::RemovedFromRack => w.0.contains_key(id) && !w.0[id].0 && (w.0[id].1 matches Some(
            slot,
        ) && (u matches Undo::RemoveFromRack { object_id, rack_position_uid } && object_id@ == id
            && rack_position_uid == slot)),
        ActionKind::PowerToggled => w.0.contains_key(id) && (u matches Undo::PowerToggle {
            object_id,
            was_on,
        } && object_id@ == id && was_on == w.0[id].2),
        ActionKind::PropertyChanged => w.0.contains_key(id) && w.0[id].3.contains_key(f.key@) && (
        u matches Undo::PropertyChange { object_id, key, old_value } && object_id@ == id && key@
            == f.key@ && old_value@ == w.0[id].3[f.key@]),
        ActionKind::CableConnected => !w.1.contains_key(f.cable_id) && (u matches Undo::CableConnect {
            cable_id,
        } && cable_id == f.cable_id),
        ActionKind::CableDisconnected => w.1.contains_key(f.cable_id) && (u matches Undo::CableDisconnect {
            cable_id,
            start_type,
            start_device_id,
            end_type,
            end_device_id,
        } && cable_id == f.cable_id && w.1[f.cable_id] == (
            start_type,
            start_device_id@,
            end_type,
            end_device_id@,
        )),
        ActionKind::ObjectSpawned => !w.0.contains_key(id) && (u matches Undo::Spawn { object_id }
            && object_id@ == id),
        ActionKind::ObjectDestroyed => false,
    }
}

/// Undoing inverts: for every world and every action (but a destruction)
/// with the undo it recorded, applying the action's game call and then the
/// undo's game calls leaves the world exactly as it was.
pub proof fn lemma_undo_restores(
    w: WorldView,
    f: ActionFields,
    c: WorldCall,
    u: Undo,
    calls: Seq<WorldCall>,
)
    requires
        applies(c, f),
        undoes(calls, u),
        undo_recorded(w, f, u),
    ensures
        run_calls(call_effect(w, c), calls) == w,
{
    reveal_with_fuel(run_calls, 3);
    let id = f.object_id@;
    let w1 = call_effect(w, c);
    if calls.len() == 1 {
        assert(calls.drop_last() =~= Seq::<WorldCall>::empty());
    } else if calls.len() == 2 {
        assert(calls.drop_last().drop_last() =~= Seq::<WorldCall>::empty());
        assert(calls.drop_last().last() == calls[0]);
    }
    let r = run_calls(w1, calls);
    match f.kind {
        ActionKind::CableConnected => {
            assert(r.1 =~= w.1);
            assert(r.0 =~= w.0);
        },
        ActionKind::CableDisconnected => {
            assert(r.1 =~= w.1);
            assert(r.0 =~= w.0);
        },
        ActionKind::ObjectSpawned => {
            assert(r.0 =~= w.0);
        },
        ActionKind::PropertyChanged => {
            assert(r.0[id].3 =~= w.0[id].3);
            assert(r.0 =~= w.0);
        },
        _ => {
            assert(r.0 =~= w.0);
        },
    }
}

/// Marks that a remote action (or an undo) is being applied, so that the
/// carry changes it causes are not reported as the local player's own.
pub fn begin_remote_action<A>(state: &mut MultiplayerState<A>)
    ensures
        final(state).executing_remote_action,
        *final(state) == (MultiplayerState { executing_remote_action: true, ..*old(state) }),
{
    state.executing_remote_action = true;
}

/// Marks that applying a remote action (or an undo) is over.
pub fn end_remote_action<A>(state: &mut MultiplayerState<A>)
    ensures
        !final(state).executing_remote_action,
        *final(state) == (MultiplayerState { executing_remote_action: false, ..*old(state) }),
{
    state.executing_remote_action = false;
}

} // verus!
