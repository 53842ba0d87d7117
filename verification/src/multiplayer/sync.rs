//! World actions a client sends to the host: their sequence numbers, the
//! queue of actions waiting for the host's verdict, and the host's check of
//! an incoming action. Game time is counted in milliseconds.

use vstd::prelude::*;

verus! {

/// How long a client waits for the host's verdict before rolling back.
pub const WORLD_ACTION_TIMEOUT_MS: u64 = 5000;

/// An action sent to the host and not yet answered: its kind, the object id
/// it carries (cable actions carry none; whatever is stored there names no
/// object), and `action`, what the caller needs to undo it.
#[derive(Debug)]
pub struct PendingAction<A> {
    pub seq: u32,
    pub kind: ActionKind,
    pub object_id: String,
    pub sent_at: u64,
    pub action: A,
}

/// Whether the action has waited at least the timeout at game time `now`.
pub open spec fn timed_out<A>(p: PendingAction<A>, now: u64) -> bool {
    now - p.sent_at >= WORLD_ACTION_TIMEOUT_MS
}

/// Whether actions of this kind are about an object: all but the cable
/// actions.
pub open spec fn kind_has_object(kind: ActionKind) -> bool {
    !(kind is CableConnected || kind is CableDisconnected)
}

/// Whether the action concerns the object named `id`.
pub open spec fn targets<A>(p: PendingAction<A>, id: Seq<char>) -> bool {
    kind_has_object(p.kind) && p.object_id@ == id
}

/// The actions of `q` that have timed out at `now`, in order.
pub open spec fn expired_actions<A>(q: Seq<PendingAction<A>>, now: u64) -> Seq<PendingAction<A>> {
    q.filter(|p: PendingAction<A>| timed_out(p, now))
}

/// The actions of `q` still waiting at `now`, in order.
pub open spec fn waiting_actions<A>(q: Seq<PendingAction<A>>, now: u64) -> Seq<PendingAction<A>> {
    q.filter(|p: PendingAction<A>| !timed_out(p, now))
}

/// `i` is the first position of `s` that holds sequence number `seq`.
pub open spec fn first_with_seq<A>(s: Seq<PendingAction<A>>, seq: u32, i: int) -> bool {
    &&& 0 <= i < s.len()
    &&& s[i].seq == seq
    &&& forall|j: int| 0 <= j < i ==> (#[trigger] s[j]).seq != seq
}

/// The kinds of world action.
#[derive(Clone, Copy, Debug, PartialEq, Eq, Structural)]
pub enum ActionKind {
    ObjectPickedUp,
    ObjectDropped,
    InstalledInRack,
    RemovedFromRack,
    PowerToggled,
    PropertyChanged,
    ObjectSpawned,
    ObjectDestroyed,
    CableConnected,
    CableDisconnected,
}

/// Whether actions of this kind are about an object (see [`kind_has_object`]).
pub fn action_has_object(kind: ActionKind) -> (b: bool)
    ensures
        b == kind_has_object(kind),
{
    match kind {
        ActionKind::CableConnected | ActionKind::CableDisconnected => false,
        _ => true,
    }
}

/// The host's verdict on a client's action: an action about an object needs
/// a non-empty object id; a rack install needs a non-negative rack position;
/// a drop whose position and rotation are all zero is uninitialized and
/// refused; cable actions are always accepted.
pub open spec fn action_is_valid(
    kind: ActionKind,
    object_id: Seq<char>,
    rack_position_uid: i32,
    transform_is_zero: bool,
) -> bool {
    match kind {
        ActionKind::CableConnected | ActionKind::CableDisconnected => true,
        ActionKind::InstalledInRack => object_id.len() > 0 && rack_position_uid >= 0,
        ActionKind::ObjectDropped => object_id.len() > 0 && !transform_is_zero,
        _ => object_id.len() > 0,
    }
}

/// What the host's verdict depends on: a cable action is always accepted;
/// any other action is refused when its object id is empty; beyond that, only
/// an install looks at its rack slot (refused when negative) and only a drop
/// at its transform (refused when all zero). So for every kind but an install
/// the rack slot does not matter, for every kind but a drop the transform
/// does not matter, and for the remaining object actions the object id alone
/// decides.
pub proof fn lemma_verdict_inputs(
    kind: ActionKind,
    object_id: Seq<char>,
    rack1: i32,
    rack2: i32,
    zero1: bool,
    zero2: bool,
)
    ensures
        !(kind is InstalledInRack) ==> action_is_valid(kind, object_id, rack1, zero1)
            == action_is_valid(kind, object_id, rack2, zero1),
        !(kind is ObjectDropped) ==> action_is_valid(kind, object_id, rack1, zero1)
            == action_is_valid(kind, object_id, rack1, zero2),
        !kind_has_object(kind) ==> action_is_valid(kind, object_id, rack1, zero1),
        kind_has_object(kind) && object_id.len() == 0 ==> !action_is_valid(
            kind,
            object_id,
            rack1,
            zero1,
        ),
        kind_has_object(kind) && !(kind is InstalledInRack) && !(kind is ObjectDropped) ==> (
        action_is_valid(kind, object_id, rack1, zero1) <==> object_id.len() > 0),
        kind is InstalledInRack ==> (action_is_valid(kind, object_id, rack1, zero1) <==> object_id.len()
            > 0 && rack1 >= 0),
        kind is ObjectDropped ==> (action_is_valid(kind, object_id, rack1, zero1) <==> object_id.len()
            > 0 && !zero1),
{
}

/// Checks an action received from a client (see [`action_is_valid`]).
/// `transform_is_zero` tells whether a drop's position and rotation are all
/// zero; it is ignored for other kinds.
pub fn validate_world_action(
    kind: ActionKind,
    object_id: &str,
    rack_position_uid: i32,
    transform_is_zero: bool,
) -> (valid: bool)
    ensures
        valid == action_is_valid(kind, object_id@, rack_position_uid, transform_is_zero),
{
    match kind {
        ActionKind::CableConnected | ActionKind::CableDisconnected => true,
        ActionKind::InstalledInRack => !object_id.is_empty() && rack_position_uid >= 0,
        ActionKind::ObjectDropped => !object_id.is_empty() && !transform_is_zero,
        _ => !object_id.is_empty(),
    }
}

/// What a client does with the host's verdict on one of its actions.
#[derive(Debug)]
pub enum AckOutcome<A> {
    /// The host ignores verdicts.
    Ignored,
    /// No such action is waiting (it may have timed out already).
    Unknown,
    /// The host accepted the action; nothing to undo.
    Accepted(PendingAction<A>),
    /// The host refused the action; it is handed back to be undone.
    Rejected(PendingAction<A>),
}

/// The client side of world-action synchronization: the next sequence
/// number (never 0 once handed out: it wraps from `u32::MAX` to 1), the
/// actions waiting for a verdict in the order they were sent, and the game
/// time.
#[derive(Debug)]
pub struct WorldSyncState<A> {
    pub next_seq: u32,
    pub pending_actions: Vec<PendingAction<A>>,
    pub game_time: u64,
}

impl<A> WorldSyncState<A> {
    /// The actions waiting for a verdict, oldest first.
    pub open spec fn pending(&self) -> Seq<PendingAction<A>> {
        self.pending_actions@
    }

    /// The number after `n`: wrapping from `u32::MAX` to 1, never 0.
    pub open spec fn after(n: u32) -> u32 {
        if n == u32::MAX { 1 } else { (n + 1) as u32 }
    }

    /// Sequence numbers start at 1, nothing waits, time is 0.
    pub fn new() -> (s: WorldSyncState<A>)
        ensures
            s.next_seq == 1,
            s.pending().len() == 0,
            s.game_time == 0,
    {
        WorldSyncState { next_seq: 1, pending_actions: Vec::new(), game_time: 0 }
    }

    /// Returns the next sequence number and advances, wrapping from
    /// `u32::MAX` to 1 so that 0 is never reached.
    pub fn next_seq(&mut self) -> (seq: u32)
        ensures
            seq == old(self).next_seq,
            final(self).next_seq == Self::after(old(self).next_seq),
            final(self).next_seq != 0,
            final(self).pending() == old(self).pending(),
            final(self).game_time == old(self).game_time,
    {
        let seq = self.next_seq;
        self.next_seq = self.next_seq.wrapping_add(1);
        if self.next_seq == 0 {
            self.next_seq = 1;
        }
        seq
    }

    /// Lets `dt_ms` milliseconds of game time pass (the clock stops at
    /// `u64::MAX`).
    pub fn advance_time(&mut self, dt_ms: u64)
        ensures
            final(self).game_time == if old(self).game_time + dt_ms > u64::MAX {
                u64::MAX
            } else {
                (old(self).game_time + dt_ms) as u64
            },
            final(self).pending() == old(self).pending(),
            final(self).next_seq == old(self).next_seq,
    {
        self.game_time = self.game_time.saturating_add(dt_ms);
    }

    /// Queues an action sent with number `seq`, stamped with the current
    /// game time.
    pub fn register_pending(&mut self, seq: u32, kind: ActionKind, object_id: String, action: A)
        ensures
            final(self).pending() == old(self).pending().push(
                (PendingAction { seq, kind, object_id, sent_at: old(self).game_time, action }),
            ),
            final(self).next_seq == old(self).next_seq,
            final(self).game_time == old(self).game_time,
    {
        let sent_at = self.game_time;
        self.pending_actions.push(PendingAction { seq, kind, object_id, sent_at, action });
    }

    /// Takes out the oldest action with number `seq`, keeping the order of
    /// the others; `None` if no action has that number.
    pub fn remove_pending(&mut self, seq: u32) -> (r: Option<PendingAction<A>>)
        ensures
            final(self).next_seq == old(self).next_seq,
            final(self).game_time == old(self).game_time,
            match r {
                Some(p) => exists|i: int|
                    first_with_seq(old(self).pending(), seq, i) && p == old(self).pending()[i]
                        && final(self).pending() == old(self).pending().remove(i),
                None => (forall|j: int|
                    0 <= j < old(self).pending().len() ==> (#[trigger] old(self).pending()[j]).seq
                        != seq) && final(self).pending() == old(self).pending(),
            },
    {
        let mut i: usize = 0;
        while i < self.pending_actions.len()
            invariant
                i <= self.pending_actions@.len(),
                forall|j: int| 0 <= j < i ==> (#[trigger] self.pending_actions@[j]).seq != seq,
                self.pending_actions@ == old(self).pending_actions@,
                self.next_seq == old(self).next_seq,
                self.game_time == old(self).game_time,
            decreases self.pending_actions@.len() - i,
        {
            if self.pending_actions[i].seq == seq {
                let ghost before = self.pending_actions@;
                let p = self.pending_actions.remove(i);
                assert(first_with_seq(before, seq, i as int));
                return Some(p);
            }
            i = i + 1;
        }
        None
    }

    /// Takes out every action that has waited at least the timeout, oldest
    /// first; the others stay, in order.
    pub fn drain_timed_out(&mut self) -> (out: Vec<PendingAction<A>>)
        ensures
            out@ == expired_actions(old(self).pending(), old(self).game_time),
            final(self).pending() == waiting_actions(old(self).pending(), old(self).game_time),
            final(self).next_seq == old(self).next_seq,
            final(self).game_time == old(self).game_time,
    {
        let now = self.game_time;
        let mut rest: Vec<PendingAction<A>> = Vec::new();
        std::mem::swap(&mut rest, &mut self.pending_actions);
        let ghost orig = rest@;
        let mut kept: Vec<PendingAction<A>> = Vec::new();
        let mut out: Vec<PendingAction<A>> = Vec::new();
        let ghost mut k: int = 0;
        while rest.len() > 0
            invariant
                0 <= k <= orig.len(),
                rest@ == orig.subrange(k, orig.len() as int),
                out@ == orig.take(k).filter(|p: PendingAction<A>| timed_out(p, now)),
                kept@ == orig.take(k).filter(|p: PendingAction<A>| !timed_out(p, now)),
                self.game_time == now,
            decreases rest@.len(),
        {
            let p = rest.remove(0);
            proof {
                assert(p == orig[k]);
                assert(orig.take(k + 1).drop_last() =~= orig.take(k));
                assert(orig.take(k + 1).last() == p);
                reveal(Seq::filter);
            }
            let expired = now >= p.sent_at && now - p.sent_at >= WORLD_ACTION_TIMEOUT_MS;
            if expired {
                out.push(p);
            } else {
                kept.push(p);
            }
            proof {
                k = k + 1;
                assert(rest@ =~= orig.subrange(k, orig.len() as int));
            }
        }
        proof {
            assert(orig.take(k) =~= orig);
        }
        self.pending_actions = kept;
        out
    }

    /// Whether an action about the object named `object_id` is waiting.
    pub fn has_pending_for_object(&self, object_id: &str) -> (b: bool)
        ensures
            b == exists|i: int| 0 <= i < self.pending().len() && targets(#[trigger] self.pending()[i], object_id@),
    {
        let id = object_id.to_owned();
        let mut i: usize = 0;
        while i < self.pending_actions.len()
            invariant
                i <= self.pending_actions@.len(),
                id@ == object_id@,
                forall|j: int| 0 <= j < i ==> !targets(#[trigger] self.pending_actions@[j], object_id@),
            decreases self.pending_actions@.len() - i,
        {
            if action_has_object(self.pending_actions[i].kind) && self.pending_actions[i].object_id == id {
                assert(targets(self.pending()[i as int], object_id@));
                return true;
            }
            i = i + 1;
        }
        false
    }

    /// Back to the state `new` builds.
    pub fn reset(&mut self)
        ensures
            final(self).next_seq == 1,
            final(self).pending().len() == 0,
            final(self).game_time == 0,
    {
        self.next_seq = 1;
        self.pending_actions.clear();
        self.game_time = 0;
    }

    /// A client sends an action: it gets the next sequence number and waits
    /// for the host's verdict under that number, which is returned.
    pub fn send_action(&mut self, kind: ActionKind, object_id: String, action: A) -> (seq: u32)
        ensures
            seq == old(self).next_seq,
            old(self).next_seq != 0 ==> seq != 0,
            final(self).next_seq == Self::after(old(self).next_seq),
            final(self).pending() == old(self).pending().push(
                (PendingAction { seq, kind, object_id, sent_at: old(self).game_time, action }),
            ),
            final(self).game_time == old(self).game_time,
    {
        let seq = self.next_seq();
        self.register_pending(seq, kind, object_id, action);
        seq
    }

    /// The host's verdict on action `seq` reaches this side. The host ignores
    /// it; a client takes the action out of the queue and learns whether to
    /// undo it.
    pub fn handle_ack(&mut self, is_host: bool, seq: u32, accepted: bool) -> (o: AckOutcome<A>)
        ensures
            final(self).next_seq == old(self).next_seq,
            final(self).game_time == old(self).game_time,
            is_host ==> o is Ignored && final(self).pending() == old(self).pending(),
            !is_host ==> match o {
                AckOutcome::Accepted(p) => accepted && exists|i: int|
                    first_with_seq(old(self).pending(), seq, i) && p == old(self).pending()[i]
                        && final(self).pending() == old(self).pending().remove(i),
                AckOutcome::Rejected(p) => !accepted && exists|i: int|
                    first_with_seq(old(self).pending(), seq, i) && p == old(self).pending()[i]
                        && final(self).pending() == old(self).pending().remove(i),
                AckOutcome::Unknown => (forall|j: int|
                    0 <= j < old(self).pending().len() ==> (#[trigger] old(self).pending()[j]).seq
                        != seq) && final(self).pending() == old(self).pending(),
                AckOutcome::Ignored => false,
            },
    {
        if is_host {
            return AckOutcome::Ignored;
        }
        match self.remove_pending(seq) {
            Some(p) => if accepted {
                AckOutcome::Accepted(p)
            } else {
                AckOutcome::Rejected(p)
            },
            None => AckOutcome::Unknown,
        }
    }
}

/// An action sent under a number no other waiting action carries is the
/// one the host's verdict on that number takes out, and taking it out leaves
/// the queue exactly as it was before the action was sent.
pub proof fn lemma_ack_undoes_send<A>(queue: Seq<PendingAction<A>>, p: PendingAction<A>)
    requires
        forall|j: int| 0 <= j < queue.len() ==> (#[trigger] queue[j]).seq != p.seq,
    ensures
        first_with_seq(queue.push(p), p.seq, queue.len() as int),
        queue.push(p)[queue.len() as int] == p,
        queue.push(p).remove(queue.len() as int) == queue,
        forall|i: int| #![trigger first_with_seq(queue.push(p), p.seq, i)]
            first_with_seq(queue.push(p), p.seq, i) ==> i == queue.len(),
{
    let q = queue.push(p);
    assert(q.remove(queue.len() as int) =~= queue);
    assert forall|i: int| #![trigger first_with_seq(q, p.seq, i)] first_with_seq(q, p.seq, i) implies i == queue.len() by {
        if i < queue.len() {
            assert(q[i] == queue[i]);
        }
    }
}

/// A timed-out action never stays in the queue, and one that has not timed
/// out is never handed back: draining splits the queue by the timeout, and
/// every action comes out on exactly one side.
pub proof fn lemma_drain_partitions<A>(queue: Seq<PendingAction<A>>, now: u64)
    ensures
        forall|i: int|
            0 <= i < expired_actions(queue, now).len() ==> timed_out(
                #[trigger] expired_actions(queue, now)[i],
                now,
            ),
        forall|i: int|
            0 <= i < waiting_actions(queue, now).len() ==> !timed_out(
                #[trigger] waiting_actions(queue, now)[i],
                now,
            ),
        expired_actions(queue, now).len() + waiting_actions(queue, now).len() == queue.len(),
    decreases queue.len(),
{
    let f = |p: PendingAction<A>| timed_out(p, now);
    let g = |p: PendingAction<A>| !timed_out(p, now);
    queue.filter_lemma(f);
    queue.filter_lemma(g);
    reveal(Seq::filter);
    if queue.len() > 0 {
        lemma_drain_partitions(queue.drop_last(), now);
    }
}

impl<A> Default for WorldSyncState<A> {
    /// The state `new` builds.
    fn default() -> (s: WorldSyncState<A>)
        ensures
            s.next_seq == 1,
            s.pending().len() == 0,
            s.game_time == 0,
    {
        WorldSyncState::new()
    }
}

} // verus!
