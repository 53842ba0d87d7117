//! Join states and the save-transfer state.

use vstd::prelude::*;

use crate::assoc::{assoc_map, keys_distinct};

verus! {

/// The join-state codes are the game's fixed values: idle 0, waiting for
/// the save 1, save ready 2, save up to date 3, loading the scene 4, loaded
/// 5. Reading a code back gives its state, and any other number reads as
/// idle.
pub proof fn lemma_join_state_codes(other: u32)
    ensures
        JoinState::Idle.spec_code() == 0,
        JoinState::WaitingForSave.spec_code() == 1,
        JoinState::SaveReady.spec_code() == 2,
        JoinState::SaveUpToDate.spec_code() == 3,
        JoinState::LoadingScene.spec_code() == 4,
        JoinState::Loaded.spec_code() == 5,
        JoinState::spec_from_u32(0) == JoinState::Idle,
        JoinState::spec_from_u32(1) == JoinState::WaitingForSave,
        JoinState::spec_from_u32(2) == JoinState::SaveReady,
        JoinState::spec_from_u32(3) == JoinState::SaveUpToDate,
        JoinState::spec_from_u32(4) == JoinState::LoadingScene,
        JoinState::spec_from_u32(5) == JoinState::Loaded,
        other > 5 ==> JoinState::spec_from_u32(other) == JoinState::Idle,
{
}

/// Size of one save-file chunk in bytes.
pub const SAVE_CHUNK_SIZE: usize = 60000;

/// Maximum number of registered retries of the `Hello` handshake.
pub const HELLO_MAX_RETRIES: u32 = 15;

/// Progress of a client joining a host's session.
#[derive(Clone, Copy, PartialEq, Eq, Debug, Structural)]
pub enum JoinState {
    Idle,
    WaitingForSave,
    SaveReady,
    SaveUpToDate,
    LoadingScene,
    Loaded,
}

impl JoinState {
    /// The numeric code of a join state, as exchanged with the game.
    pub open spec fn spec_code(self) -> u32 {
        match self {
            JoinState::Idle => 0,
            JoinState::WaitingForSave => 1,
            JoinState::SaveReady => 2,
            JoinState::SaveUpToDate => 3,
            JoinState::LoadingScene => 4,
            JoinState::Loaded => 5,
        }
    }

    /// The join state with code `val`; unknown codes give `Idle`.
    pub open spec fn spec_from_u32(val: u32) -> JoinState {
        match val {
            1 => JoinState::WaitingForSave,
            2 => JoinState::SaveReady,
            3 => JoinState::SaveUpToDate,
            4 => JoinState::LoadingScene,
            5 => JoinState::Loaded,
            _ => JoinState::Idle,
        }
    }

    /// The join state with code `val`; unknown codes give `Idle`.
    pub fn from_u32(val: u32) -> (s: JoinState)
        ensures
            s == Self::spec_from_u32(val),
    {
        match val {
            1 => JoinState::WaitingForSave,
            2 => JoinState::SaveReady,
            3 => JoinState::SaveUpToDate,
            4 => JoinState::LoadingScene,
            5 => JoinState::Loaded,
            _ => JoinState::Idle,
        }
    }

    /// The numeric code of the join state.
    pub fn as_u32(self) -> (c: u32)
        ensures
            c == self.spec_code(),
    {
        match self {
            JoinState::Idle => 0,
            JoinState::WaitingForSave => 1,
            JoinState::SaveReady => 2,
            JoinState::SaveUpToDate => 3,
            JoinState::LoadingScene => 4,
            JoinState::Loaded => 5,
        }
    }
}

/// Reading back the code of any join state gives that state; codes above 5
/// read as `Idle`.
pub proof fn lemma_join_state_code_roundtrip(s: JoinState, val: u32)
    ensures
        JoinState::spec_from_u32(s.spec_code()) == s,
        val > 5 ==> JoinState::spec_from_u32(val) == JoinState::Idle,
{
}

/// Per-client progress of an outgoing save transfer: the next chunk to send.
#[derive(Clone, Copy, PartialEq, Eq, Debug, Structural)]
pub struct SaveTransferState {
    pub send_index: u32,
}

/// Number of chunks of `len` bytes: `len / SAVE_CHUNK_SIZE` rounded up.
pub open spec fn chunk_count_for(len: nat) -> nat {
    ((len + SAVE_CHUNK_SIZE - 1) / (SAVE_CHUNK_SIZE as int)) as nat
}

/// Save-file transfer state of one side of the session.
///
/// The host keeps the outgoing save, its chunk count and each waiting
/// client's progress; a client keeps the buffer it assembles, which chunks
/// have arrived, and the completed save once every chunk is in.
pub struct SaveState {
    pub outgoing: Option<Vec<u8>>,
    pub chunk_count: u32,
    pub transfers: Vec<(u64, SaveTransferState)>,
    pub incoming_total: u32,
    pub incoming_chunk_count: u32,
    pub incoming_data: Vec<u8>,
    pub incoming_received: Vec<bool>,
    pub data_ready: Option<Vec<u8>>,
    pub loaded: bool,
    pub skip_next_request: bool,
    pub local_hash: u64,
    pub up_to_date: bool,
}

impl SaveState {
    /// Client identifier to transfer progress.
    pub open spec fn transfer_map(&self) -> Map<u64, SaveTransferState> {
        assoc_map(self.transfers@)
    }

    /// The outgoing save's chunk count matches its length, and no client
    /// appears twice among the transfers.
    pub open spec fn wf(&self) -> bool {
        &&& keys_distinct(self.transfers@)
        &&& self.outgoing matches Some(d) ==> d@.len() <= u32::MAX && self.chunk_count as nat
            == chunk_count_for(d@.len())
    }

    /// A state with nothing in transfer.
    pub fn new() -> (s: SaveState)
        ensures
            s.wf(),
            s.outgoing is None,
            s.chunk_count == 0,
            s.transfers@.len() == 0,
            s.incoming_total == 0,
            s.incoming_chunk_count == 0,
            s.incoming_data@.len() == 0,
            s.incoming_received@.len() == 0,
            s.data_ready is None,
            !s.loaded,
            !s.skip_next_request,
            s.local_hash == 0,
            !s.up_to_date,
    {
        SaveState {
            outgoing: None,
            chunk_count: 0,
            transfers: Vec::new(),
            incoming_total: 0,
            incoming_chunk_count: 0,
            incoming_data: Vec::new(),
            incoming_received: Vec::new(),
            data_ready: None,
            loaded: false,
            skip_next_request: false,
            local_hash: 0,
            up_to_date: false,
        }
    }
}

} // verus!

use super::player::{PlayerTracker, PlayerStateSnapshot};
use super::sync::WorldSyncState;

verus! {

/// Connection and handshake state of the local player's session.
pub struct SessionState {
    pub peer_id: u64,
    pub is_host: bool,
    pub my_id: u64,
    pub connected: bool,
    pub connecting: bool,
    pub room_code: Option<String>,
    pub join_ok_received: bool,
    pub hello_retry_count: u32,
    pub join_state: JoinState,
    pub last_sent_player_state: PlayerStateSnapshot,
    pub rack_uids_ensured: bool,
}

impl SessionState {
    /// A session that is not connected to anyone.
    pub fn new() -> (s: SessionState)
        ensures
            s.peer_id == 0,
            !s.is_host,
            s.my_id == 0,
            !s.connected,
            !s.connecting,
            s.room_code is None,
            !s.join_ok_received,
            s.hello_retry_count == 0,
            s.join_state == JoinState::Idle,
            s.last_sent_player_state == PlayerStateSnapshot::spec_default(),
            !s.rack_uids_ensured,
    {
        SessionState {
            peer_id: 0,
            is_host: false,
            my_id: 0,
            connected: false,
            connecting: false,
            room_code: None,
            join_ok_received: false,
            hello_retry_count: 0,
            join_state: JoinState::Idle,
            last_sent_player_state: PlayerStateSnapshot::idle(),
            rack_uids_ensured: false,
        }
    }
}

/// What the local player carries, as tracked to detect pick-ups and drops.
pub struct CarryState {
    pub prev_count: u8,
    pub held_id: String,
    pub held_type: u8,
    pub suppress_next_drop: bool,
    pub last_install_id: String,
}

impl CarryState {
    /// Nothing carried.
    pub fn new() -> (c: CarryState)
        ensures
            c.prev_count == 0,
            c.held_id@.len() == 0,
            c.held_type == 0,
            !c.suppress_next_drop,
            c.last_install_id@.len() == 0,
    {
        CarryState {
            prev_count: 0,
            held_id: String::new(),
            held_type: 0,
            suppress_next_drop: false,
            last_install_id: String::new(),
        }
    }
}

/// The whole multiplayer state of the local player.
pub struct MultiplayerState<A> {
    pub tracker: PlayerTracker,
    pub session: SessionState,
    pub save: SaveState,
    pub carry: CarryState,
    pub world_sync: WorldSyncState<A>,
    pub executing_remote_action: bool,
}

impl<A> MultiplayerState<A> {
    /// The parts' own invariants.
    pub open spec fn wf(&self) -> bool {
        &&& self.tracker.wf()
        &&& self.save.wf()
    }

    /// A fresh state: not connected, nothing in transfer, nobody known.
    pub fn new() -> (s: MultiplayerState<A>)
        ensures
            s.wf(),
            s.tracker.players() == Map::<u64, super::player::PlayerView>::empty(),
            s.session == SessionState::new_spec(),
            s.world_sync.next_seq == 1,
            s.world_sync.pending().len() == 0,
            s.world_sync.game_time == 0,
            !s.executing_remote_action,
    {
        MultiplayerState {
            tracker: PlayerTracker::new(),
            session: SessionState::new(),
            save: SaveState::new(),
            carry: CarryState::new(),
            world_sync: WorldSyncState::new(),
            executing_remote_action: false,
        }
    }
}

/// What [`init_state`] leaves in a slot that held `before`: the same state
/// if there was one, else a fresh one (empty roster, the session `new`
/// builds, sequence numbers from 1, nothing waiting, time 0).
pub open spec fn initialized<A>(
    before: Option<MultiplayerState<A>>,
    after: Option<MultiplayerState<A>>,
) -> bool {
    &&& before is Some ==> after == before
    &&& before is None ==> (after matches Some(s) && s.wf() && s.tracker.players() == Map::<
        u64,
        super::player::PlayerView,
    >::empty() && s.session == SessionState::new_spec() && s.world_sync.next_seq == 1
        && s.world_sync.pending().len() == 0 && s.world_sync.game_time == 0
        && !s.executing_remote_action)
}

/// One step of a state slot's life: an [`init_state`] call (`init`), or
/// anything else, such as [`with_state`], which neither fills nor empties
/// the slot.
pub open spec fn slot_step<A>(
    before: Option<MultiplayerState<A>>,
    after: Option<MultiplayerState<A>>,
    init: bool,
) -> bool {
    if init {
        initialized(before, after)
    } else {
        (before is None <==> after is None)
    }
}

/// The state is made once: in a slot's life from empty, the slot stays
/// empty (so [`with_state`] runs nothing) until the first [`init_state`],
/// which puts in a fresh state whose join state is `Idle`; after that the
/// slot always holds a state, and a later [`init_state`] leaves it as it is.
pub proof fn lemma_state_initialized_once<A>(
    slots: Seq<Option<MultiplayerState<A>>>,
    inits: Seq<bool>,
    k: int,
)
    requires
        slots.len() == inits.len() + 1,
        slots[0] is None,
        forall|j: int| #![trigger inits[j]] 0 <= j < inits.len() ==> slot_step(slots[j], slots[j + 1], inits[j]),
        0 <= k <= inits.len(),
    ensures
        (forall|j: int| 0 <= j < k ==> !#[trigger] inits[j]) ==> slots[k] is None,
        (exists|j: int| 0 <= j < k && #[trigger] inits[j]) ==> slots[k] is Some,
        forall|j: int|
            #![trigger inits[j]]
            0 <= j < inits.len() && inits[j] && slots[j] is Some ==> slots[j + 1] == slots[j],
        forall|j: int|
            #![trigger inits[j]]
            0 <= j < inits.len() && inits[j] && slots[j] is None ==> (slots[j + 1] matches Some(s)
                && s.session.join_state == JoinState::Idle),
    decreases k,
{
    if k > 0 {
        lemma_state_initialized_once(slots, inits, k - 1);
        assert(slot_step(slots[k - 1], slots[k], inits[k - 1]));
        if exists|j: int| 0 <= j < k && #[trigger] inits[j] {
            let j = choose|j: int| 0 <= j < k && #[trigger] inits[j];
            if j < k - 1 {
                assert(exists|i: int| 0 <= i < k - 1 && #[trigger] inits[i]);
            }
        }
        if forall|j: int| 0 <= j < k ==> !#[trigger] inits[j] {
            assert(!inits[k - 1]);
        }
    }
    assert forall|j: int|
        #![trigger inits[j]]
        0 <= j < inits.len() && inits[j] && slots[j] is None implies (slots[j + 1] matches Some(s)
            && s.session.join_state == JoinState::Idle) by {
        assert(slot_step(slots[j], slots[j + 1], inits[j]));
    }
    assert forall|j: int|
        #![trigger inits[j]]
        0 <= j < inits.len() && inits[j] && slots[j] is Some implies slots[j + 1] == slots[j] by {
        assert(slot_step(slots[j], slots[j + 1], inits[j]));
    }
}

/// Puts a fresh state into an empty slot (see [`MultiplayerState::new`]); a
/// slot that already holds a state keeps it.
pub fn init_state<A>(slot: &mut Option<MultiplayerState<A>>)
    ensures
        initialized(*old(slot), *final(slot)),
{
    if slot.is_none() {
        *slot = Some(MultiplayerState::new());
    }
}

/// Runs `f` on the state held in `slot` and returns its result, the state
/// staying as `f` left it; `None`, without calling `f`, when the slot is
/// empty.
pub fn with_state<A, F, R>(slot: &mut Option<MultiplayerState<A>>, f: F) -> (r: Option<R>) where
    F: FnOnce(&mut MultiplayerState<A>) -> R,
    requires
        forall|st: &mut MultiplayerState<A>| f.requires((st,)),
    ensures
        (*old(slot)) is None <==> r is None,
        (*old(slot)) is None ==> (*final(slot)) is None,
        (*old(slot)) is Some ==> (*final(slot)) is Some,
        slot_step(*old(slot), *final(slot), false),
        (*old(slot)) is Some ==> exists|m: &mut MultiplayerState<A>|
            *m == old(slot).unwrap() && *final(m) == final(slot).unwrap() && f.ensures((m,), r.unwrap()),
{
    match slot {
        Some(st) => Some(f(st)),
        None => None,
    }
}

impl SessionState {
    /// The session `new` builds.
    pub open spec fn new_spec() -> SessionState {
        SessionState {
            peer_id: 0,
            is_host: false,
            my_id: 0,
            connected: false,
            connecting: false,
            room_code: None,
            join_ok_received: false,
            hello_retry_count: 0,
            join_state: JoinState::Idle,
            last_sent_player_state: PlayerStateSnapshot::spec_default(),
            rack_uids_ensured: false,
        }
    }
}

} // verus!
