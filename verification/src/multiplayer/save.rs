//! Save-file transfer: the host cuts its save into chunks and streams them to
//! each client that asked; a client assembles the chunks into a buffer and
//! hands the save over once every chunk has arrived.

use vstd::prelude::*;
use vstd::bytes::{spec_u64_to_le_bytes, u64_to_le_bytes};
use std::collections::hash_map::DefaultHasher;
use std::hash::Hasher;
use vstd::std_specs::hash::DefaultHasherAdditionalSpecFns;

use super::state::{chunk_count_for, JoinState, MultiplayerState, SaveState, SaveTransferState, SessionState, SAVE_CHUNK_SIZE};
use crate::assoc::{
    assoc_map, has_key, index_of_u64, keys_distinct, lemma_assoc_lookup, lemma_assoc_push,
    lemma_assoc_remove,
};

verus! {

/// The hash of a save file: `DefaultHasher` fed the length prefix that
/// hashing a byte slice writes on 64-bit little-endian targets (the length
/// as 8 little-endian bytes), then the bytes themselves.
pub open spec fn save_hash(data: Seq<u8>) -> u64 {
    DefaultHasher::spec_finish(seq![spec_u64_to_le_bytes(data.len() as u64), data])
}

/// Hashes save-file bytes, so that host and client can tell whether they
/// hold the same save.
pub fn compute_save_hash(data: &[u8]) -> (h: u64)
    ensures
        h == save_hash(data@),
{
    let mut hasher = DefaultHasher::new();
    let prefix = u64_to_le_bytes(data.len() as u64);
    hasher.write(prefix.as_slice());
    hasher.write(data);
    let h = hasher.finish();
    proof {
        assert(hasher@ =~= seq![spec_u64_to_le_bytes(data@.len() as u64), data@]);
    }
    h
}

/// A buffer of `n` zero bytes.
pub open spec fn zeroed(n: nat) -> Seq<u8> {
    Seq::new(n, |p: int| 0u8)
}

/// Bytes of chunk `index` of the save `d`.
pub open spec fn chunk_of(d: Seq<u8>, index: nat) -> Seq<u8> {
    let start = index * SAVE_CHUNK_SIZE;
    let end = start + SAVE_CHUNK_SIZE;
    d.subrange(
        if start < d.len() { start as int } else { d.len() as int },
        if end < d.len() { end as int } else { d.len() as int },
    )
}

/// The buffer after writing chunk `index`, holding `data`, at its offset;
/// bytes that would fall past the end of the buffer are dropped.
pub open spec fn write_chunk(buf: Seq<u8>, index: nat, data: Seq<u8>) -> Seq<u8> {
    let off = index * SAVE_CHUNK_SIZE;
    Seq::new(
        buf.len(),
        |p: int|
            if off <= p < off + data.len() {
                data[p - off]
            } else {
                buf[p]
            },
    )
}

/// Host: a client asks for the save. It is added to the transfers, starting
/// at chunk 0, unless it is already there. Clients ignore the request.
pub fn handle_request_save<A>(state: &mut MultiplayerState<A>, sender: u64)
    requires
        old(state).wf(),
    ensures
        final(state).wf(),
        final(state).save.transfer_map() == if old(state).session.is_host && !old(state).save.transfer_map().contains_key(sender) {
            old(state).save.transfer_map().insert(sender, SaveTransferState { send_index: 0 })
        } else {
            old(state).save.transfer_map()
        },
        final(state).session == old(state).session,
        final(state).save.outgoing == old(state).save.outgoing,
        final(state).save.chunk_count == old(state).save.chunk_count,
        final(state).save.incoming_data == old(state).save.incoming_data,
        final(state).save.incoming_received == old(state).save.incoming_received,
        final(state).save.data_ready == old(state).save.data_ready,
        final(state).tracker == old(state).tracker,
{
    if state.session.is_host {
        if index_of_u64(&state.save.transfers, sender).is_none() {
            proof {
                lemma_assoc_push(state.save.transfers@, sender, SaveTransferState { send_index: 0 });
            }
            state.save.transfers.push((sender, SaveTransferState { send_index: 0 }));
        }
    }
}

/// What answering a save offer of `total_bytes` in `chunk_count` chunks
/// with hash `save_hash` does, `send_skip` being the answer. The host
/// ignores offers. A client whose local save has the offered (non-zero)
/// hash marks the save up to date and answers with a skip, changing nothing
/// else. Any other client prepares a zeroed buffer and unreceived chunk
/// flags, clears the ready save and leaves everything else as it was.
pub open spec fn offer_received<A>(
    before: MultiplayerState<A>,
    after: MultiplayerState<A>,
    total_bytes: u32,
    chunk_count: u32,
    save_hash: u64,
    send_skip: bool,
) -> bool {
    let skip = !before.session.is_host && before.save.local_hash != 0 && before.save.local_hash
        == save_hash;
    &&& send_skip == skip
    &&& before.session.is_host ==> after == before
    &&& skip ==> after == (MultiplayerState {
        save: SaveState { up_to_date: true, ..before.save },
        session: SessionState { join_state: JoinState::SaveUpToDate, ..before.session },
        ..before
    })
    &&& !before.session.is_host && !skip ==> {
        &&& !after.save.up_to_date
        &&& after.save.incoming_total == total_bytes
        &&& after.save.incoming_chunk_count == chunk_count
        &&& after.save.incoming_data@ == zeroed(total_bytes as nat)
        &&& after.save.incoming_received@ == Seq::new(chunk_count as nat, |i: int| false)
        &&& after.save.data_ready is None
        &&& after.save.outgoing == before.save.outgoing
        &&& after.save.chunk_count == before.save.chunk_count
        &&& after.save.transfers == before.save.transfers
        &&& after.save.loaded == before.save.loaded
        &&& after.save.skip_next_request == before.save.skip_next_request
        &&& after.save.local_hash == before.save.local_hash
        &&& after.session == before.session
        &&& after.tracker == before.tracker
        &&& after.carry == before.carry
        &&& after.world_sync == before.world_sync
        &&& after.executing_remote_action == before.executing_remote_action
    }
}

/// Client: the host offers its save. When the local save has the offered
/// (non-zero) hash, the save is up to date and the client answers with a
/// skip (returns `true`); otherwise it prepares a zeroed buffer of
/// `total_bytes` and `chunk_count` unreceived chunks. The host ignores offers.
pub fn handle_save_offer<A>(
    state: &mut MultiplayerState<A>,
    total_bytes: u32,
    chunk_count: u32,
    save_hash: u64,
) -> (send_skip: bool)
    requires
        old(state).wf(),
    ensures
        final(state).wf(),
        offer_received(*old(state), *final(state), total_bytes, chunk_count, save_hash, send_skip),
{
    if state.session.is_host {
        return false;
    }
    if state.save.local_hash != 0 && state.save.local_hash == save_hash {
        state.save.up_to_date = true;
        state.session.join_state = JoinState::SaveUpToDate;
        return true;
    }
    state.save.up_to_date = false;
    state.save.incoming_total = total_bytes;
    state.save.incoming_chunk_count = chunk_count;
    state.save.incoming_data = vec![0u8; total_bytes as usize];
    state.save.incoming_received = vec![false; chunk_count as usize];
    state.save.data_ready = None;
    proof {
        assert(state.save.incoming_data@ =~= zeroed(total_bytes as nat));
        assert(state.save.incoming_received@ =~= Seq::new(chunk_count as nat, |i: int| false));
    }
    false
}

/// Whether every flag in `flags` is set.
fn all_set(flags: &Vec<bool>) -> (b: bool)
    ensures
        b == (forall|i: int| 0 <= i < flags@.len() ==> flags@[i]),
{
    let mut i: usize = 0;
    while i < flags.len()
        invariant
            i <= flags@.len(),
            forall|j: int| 0 <= j < i ==> flags@[j],
        decreases flags@.len() - i,
    {
        if !flags[i] {
            return false;
        }
        i = i + 1;
    }
    true
}

/// Writes chunk `index`, holding `data`, into `buf` at its offset.
fn write_chunk_into(buf: &mut Vec<u8>, index: u32, data: &[u8])
    ensures
        final(buf)@ == write_chunk(old(buf)@, index as nat, data@),
{
    let ghost buf0 = buf@;
    let offset: u64 = index as u64 * 60000u64;
    let len = buf.len();
    if offset < len as u64 {
        let off = offset as usize;
        let end: usize = if data.len() < len - off { off + data.len() } else { len };
        let mut p: usize = off;
        while p < end
            invariant
                off <= p <= end <= len,
                off == index * SAVE_CHUNK_SIZE,
                end <= off + data@.len(),
                end == len || end == off + data@.len(),
                len == buf0.len(),
                buf@.len() == len,
                forall|q: int|
                    0 <= q < len ==> #[trigger] buf@[q] == if off <= q < p {
                        data@[q - off]
                    } else {
                        buf0[q]
                    },
            decreases end - p,
        {
            buf.set(p, data[p - off]);
            p = p + 1;
        }
        proof {
            assert(buf@ =~= write_chunk(buf0, index as nat, data@));
        }
    } else {
        proof {
            assert(buf0 =~= write_chunk(buf0, index as nat, data@));
        }
    }
}

/// One `SaveChunk` message with chunk `index` holding `data` takes the state
/// `before` to `after`, answering `completed`: ignored (nothing changes) by
/// the host, when the save is up to date, and for indices outside the offered
/// chunk count; otherwise the chunk is written at its offset and marked
/// received, and when that completes the set the buffer becomes the ready
/// save, the flags are cleared and the join state becomes `SaveReady`.
/// Nothing else changes.
pub open spec fn chunk_received<A>(
    before: MultiplayerState<A>,
    after: MultiplayerState<A>,
    index: u32,
    data: Seq<u8>,
    completed: bool,
) -> bool {
    let ignored = before.session.is_host || before.save.up_to_date || index
        >= before.save.incoming_received@.len();
    let buf = write_chunk(before.save.incoming_data@, index as nat, data);
    let flags = before.save.incoming_received@.update(index as int, true);
    let done = forall|i: int| 0 <= i < flags.len() ==> flags[i];
    &&& ignored ==> after == before && !completed
    &&& !ignored ==> completed == done
    &&& !ignored && done ==> {
        &&& after.save.data_ready matches Some(d) && d@ == buf
        &&& after.save.incoming_data@.len() == 0
        &&& after.save.incoming_received@.len() == 0
        &&& after.session.join_state == JoinState::SaveReady
    }
    &&& !ignored && !done ==> {
        &&& after.save.incoming_data@ == buf
        &&& after.save.incoming_received@ == flags
        &&& after.save.data_ready == before.save.data_ready
        &&& after.session.join_state == before.session.join_state
    }
    &&& after.session == (SessionState { join_state: after.session.join_state, ..before.session })
    &&& after.save.outgoing == before.save.outgoing
    &&& after.save.transfers == before.save.transfers
    &&& after.save.chunk_count == before.save.chunk_count
    &&& after.save.incoming_total == before.save.incoming_total
    &&& after.save.incoming_chunk_count == before.save.incoming_chunk_count
    &&& after.save.up_to_date == before.save.up_to_date
    &&& after.save.loaded == before.save.loaded
    &&& after.save.local_hash == before.save.local_hash
    &&& after.save.skip_next_request == before.save.skip_next_request
    &&& after.tracker == before.tracker
    &&& after.carry == before.carry
    &&& after.world_sync == before.world_sync
    &&& after.executing_remote_action == before.executing_remote_action
}

/// Client: chunk `index` arrives. Its bytes are written at
/// `index * SAVE_CHUNK_SIZE` (cut at the end of the buffer) and it is marked
/// received. When that completes the set, the buffer becomes the ready save,
/// the chunk flags are cleared and the join state moves to `SaveReady`
/// (returns `true`). Ignored by the host, when the save is up to date, and
/// for indices outside the offered chunk count.
pub fn handle_save_chunk<A>(state: &mut MultiplayerState<A>, index: u32, data: &[u8]) -> (completed: bool)
    requires
        old(state).wf(),
    ensures
        final(state).wf(),
        chunk_received(*old(state), *final(state), index, data@, completed),
{
    if state.session.is_host || state.save.up_to_date {
        return false;
    }
    if index as usize >= state.save.incoming_received.len() {
        return false;
    }
    let mut buf: Vec<u8> = Vec::new();
    std::mem::swap(&mut state.save.incoming_data, &mut buf);
    write_chunk_into(&mut buf, index, data);
    std::mem::swap(&mut state.save.incoming_data, &mut buf);
    state.save.incoming_received.set(index as usize, true);
    if all_set(&state.save.incoming_received) {
        let mut complete: Vec<u8> = Vec::new();
        std::mem::swap(&mut state.save.incoming_data, &mut complete);
        state.save.data_ready = Some(complete);
        state.save.incoming_received.clear();
        state.session.join_state = JoinState::SaveReady;
        true
    } else {
        false
    }
}

/// Removes a client from the transfers; when none are left, the outgoing
/// save and its chunk count are dropped.
fn drop_transfer(save: &mut SaveState, peer: u64)
    requires
        old(save).wf(),
    ensures
        final(save).wf(),
        final(save).transfer_map() == old(save).transfer_map().remove(peer),
        final(save).transfer_map().len() == 0 ==> final(save).outgoing is None && final(save).chunk_count == 0,
        final(save).transfer_map().len() != 0 ==> final(save).outgoing == old(save).outgoing
            && final(save).chunk_count == old(save).chunk_count,
        *final(save) == (SaveState {
            transfers: final(save).transfers,
            outgoing: final(save).outgoing,
            chunk_count: final(save).chunk_count,
            ..*old(save)
        }),
{
    match index_of_u64(&save.transfers, peer) {
        Some(i) => {
            proof {
                lemma_assoc_lookup(save.transfers@, i as int);
                lemma_assoc_remove(save.transfers@, i as int);
            }
            let _ = save.transfers.remove(i);
        },
        None => {
            proof {
                assert(save.transfer_map().remove(peer) =~= save.transfer_map());
            }
        },
    }
    proof {
        crate::assoc::lemma_assoc_len(save.transfers@);
    }
    if save.transfers.len() == 0 {
        save.outgoing = None;
        save.chunk_count = 0;
    }
}

/// Host: a client says its save is already up to date, so its transfer
/// stops; when no transfer is left, the outgoing save is dropped. Clients
/// ignore the message.
pub fn handle_save_skip<A>(state: &mut MultiplayerState<A>, sender: u64)
    requires
        old(state).wf(),
    ensures
        final(state).wf(),
        !old(state).session.is_host ==> *final(state) == *old(state),
        old(state).session.is_host ==> {
            &&& final(state).save.transfer_map() == old(state).save.transfer_map().remove(sender)
            &&& final(state).save.transfer_map().len() == 0 ==> final(state).save.outgoing is None
                && final(state).save.chunk_count == 0
            &&& final(state).save.transfer_map().len() != 0 ==> final(state).save.outgoing == old(state).save.outgoing && final(state).save.chunk_count == old(state).save.chunk_count
            &&& final(state).save == (SaveState {
                transfers: final(state).save.transfers,
                outgoing: final(state).save.outgoing,
                chunk_count: final(state).save.chunk_count,
                ..old(state).save
            })
        },
        final(state).session == old(state).session,
        final(state).tracker == old(state).tracker,
        final(state).carry == old(state).carry,
        final(state).world_sync == old(state).world_sync,
        final(state).executing_remote_action == old(state).executing_remote_action,
{
    if state.session.is_host {
        drop_transfer(&mut state.save, sender);
    }
}

/// A peer left the session: it is removed from the roster (giving back its
/// entity, if one was spawned), the session forgets it if it was the
/// connected peer, and its save transfer stops.
pub fn on_peer_left<A>(state: &mut MultiplayerState<A>, steam_id: u64) -> (entity: Option<u32>)
    requires
        old(state).wf(),
    ensures
        final(state).wf(),
        entity == (if old(state).tracker.players().contains_key(steam_id) {
            old(state).tracker.players()[steam_id].1
        } else {
            None
        }),
        final(state).tracker.players() == old(state).tracker.players().remove(steam_id),
        old(state).session.peer_id == steam_id ==> final(state).session.peer_id == 0
            && !final(state).session.connected,
        old(state).session.peer_id != steam_id ==> final(state).session == old(state).session,
        final(state).save.transfer_map() == old(state).save.transfer_map().remove(steam_id),
        final(state).save.transfer_map().len() == 0 ==> final(state).save.outgoing is None
            && final(state).save.chunk_count == 0,
        final(state).save.transfer_map().len() != 0 ==> final(state).save.outgoing == old(
            state,
        ).save.outgoing && final(state).save.chunk_count == old(state).save.chunk_count,
        final(state).save == (SaveState {
            transfers: final(state).save.transfers,
            outgoing: final(state).save.outgoing,
            chunk_count: final(state).save.chunk_count,
            ..old(state).save
        }),
        final(state).carry == old(state).carry,
        final(state).world_sync == old(state).world_sync,
        final(state).executing_remote_action == old(state).executing_remote_action,
{
    let eid = state.tracker.remove_player_with_entity(steam_id);
    if state.session.peer_id == steam_id {
        state.session.peer_id = 0;
        state.session.connected = false;
    }
    drop_transfer(&mut state.save, steam_id);
    eid
}

} // verus!

verus! {

/// How many chunks the host sends one client per frame at most.
pub const MAX_CHUNKS_PER_FRAME: u32 = 5;

/// Chunks sent this frame to a client whose next chunk is `n0` of `c`.
pub open spec fn chunks_sent(n0: nat, c: nat) -> nat {
    if n0 >= c {
        0
    } else if c - n0 >= MAX_CHUNKS_PER_FRAME {
        MAX_CHUNKS_PER_FRAME as nat
    } else {
        (c - n0) as nat
    }
}

/// Whether this frame finds the transfer complete: the client's next chunk
/// reaches the end before the per-frame limit.
pub open spec fn transfer_finishes(n0: nat, c: nat) -> bool {
    c < n0 + MAX_CHUNKS_PER_FRAME
}

/// `chunks` is the run of chunks of `d` starting at `n0`, as many as one
/// frame sends out of `c`.
pub open spec fn chunks_match(d: Seq<u8>, chunks: Seq<(u32, Vec<u8>)>, n0: nat, c: nat) -> bool {
    &&& chunks.len() == chunks_sent(n0, c)
    &&& forall|j: int|
        0 <= j < chunks.len() ==> (#[trigger] chunks[j]).0 == n0 + j && chunks[j].1@ == chunk_of(
            d,
            (n0 + j) as nat,
        )
}

/// The transfers after one frame: finished clients are dropped, the others
/// advance by the chunks they were sent.
pub open spec fn planned_transfers(m: Map<u64, SaveTransferState>, c: nat) -> Map<
    u64,
    SaveTransferState,
> {
    Map::new(
        |p: u64| m.contains_key(p) && !transfer_finishes(m[p].send_index as nat, c),
        |p: u64|
            SaveTransferState {
                send_index: (m[p].send_index + chunks_sent(m[p].send_index as nat, c)) as u32,
            },
    )
}

/// A chunk index below the chunk count starts inside the save.
proof fn lemma_chunk_start_in_bounds(idx: nat, len: nat)
    requires
        idx < chunk_count_for(len),
    ensures
        idx * SAVE_CHUNK_SIZE < len,
{
    let c = SAVE_CHUNK_SIZE as int;
    let q = (len + c - 1) / c;
    assert(q * c <= len + c - 1) by (nonlinear_arith)
        requires
            q == (len + c - 1) / c,
            c > 0,
            len >= 0,
    ;
    assert(idx * c <= (q - 1) * c) by (nonlinear_arith)
        requires
            idx <= q - 1,
            c > 0,
    ;
}

/// The chunks of `d` a client gets this frame, its next chunk afterwards,
/// and whether the frame finds its transfer complete.
fn plan_peer(d: &Vec<u8>, c: u32, n0: u32) -> (r: (Vec<(u32, Vec<u8>)>, u32, bool))
    requires
        d@.len() <= u32::MAX,
        c as nat == chunk_count_for(d@.len()),
    ensures
        chunks_match(d@, r.0@, n0 as nat, c as nat),
        r.1 == n0 + chunks_sent(n0 as nat, c as nat),
        r.2 == transfer_finishes(n0 as nat, c as nat),
{
    let mut chunks: Vec<(u32, Vec<u8>)> = Vec::new();
    let mut idx = n0;
    let mut k: u32 = 0;
    while k < MAX_CHUNKS_PER_FRAME
        invariant
            d@.len() <= u32::MAX,
            c as nat == chunk_count_for(d@.len()),
            k <= MAX_CHUNKS_PER_FRAME,
            idx == n0 + k,
            n0 + k <= c || k == 0,
            chunks@.len() == k,
            forall|j: int|
                0 <= j < chunks@.len() ==> (#[trigger] chunks@[j]).0 == n0 + j && chunks@[j].1@
                    == chunk_of(d@, (n0 + j) as nat),
        decreases MAX_CHUNKS_PER_FRAME - k,
    {
        if idx >= c {
            return (chunks, idx, true);
        }
        proof {
            lemma_chunk_start_in_bounds(idx as nat, d@.len());
        }
        let offset: usize = idx as usize * 60000usize;
        let end: usize = if d.len() - offset > 60000 { offset + 60000 } else { d.len() };
        let piece = vstd::slice::slice_to_vec(vstd::slice::slice_subrange(d.as_slice(), offset, end));
        proof {
            assert(piece@ =~= chunk_of(d@, idx as nat));
        }
        chunks.push((idx, piece));
        idx = idx + 1;
        k = k + 1;
    }
    (chunks, idx, false)
}

/// Host: the chunks to send this frame, per client. Each waiting client gets
/// its next chunks, at most `MAX_CHUNKS_PER_FRAME`; clients whose transfer
/// this frame finds complete are dropped, and once none is left the outgoing
/// save is dropped too. Clients, and a host with no outgoing save, plan
/// nothing.
pub fn plan_outgoing_chunks<A>(state: &mut MultiplayerState<A>) -> (out: Vec<(u64, Vec<(u32, Vec<u8>)>)>)
    requires
        old(state).wf(),
    ensures
        final(state).wf(),
        !old(state).session.is_host || old(state).save.outgoing is None ==> *final(state) == *old(
            state
        ) && out@.len() == 0,
        old(state).session.is_host && old(state).save.outgoing is Some ==> ({
            let d = old(state).save.outgoing.unwrap()@;
            let c = old(state).save.chunk_count as nat;
            let m = old(state).save.transfer_map();
            &&& final(state).save.transfer_map() == planned_transfers(m, c)
            &&& final(state).save.outgoing == if final(state).save.transfer_map().len() == 0 {
                None
            } else {
                old(state).save.outgoing
            }
            &&& keys_distinct(out@)
            &&& forall|k: int|
                0 <= k < out@.len() ==> m.contains_key(#[trigger] out@[k].0) && chunks_sent(
                    m[out@[k].0].send_index as nat,
                    c,
                ) > 0 && chunks_match(d, out@[k].1@, m[out@[k].0].send_index as nat, c)
            &&& forall|p: u64|
                m.contains_key(p) && chunks_sent(m[p].send_index as nat, c) > 0 ==> #[trigger] has_key(
                    out@,
                    p,
                )
        }),
        final(state).session == old(state).session,
        final(state).tracker == old(state).tracker,
        final(state).save.chunk_count == old(state).save.chunk_count,
        final(state).save.incoming_data == old(state).save.incoming_data,
        final(state).save.incoming_received == old(state).save.incoming_received,
        final(state).save.data_ready == old(state).save.data_ready,
{
    let mut out: Vec<(u64, Vec<(u32, Vec<u8>)>)> = Vec::new();
    if !state.session.is_host {
        return out;
    }
    let c = state.save.chunk_count;
    let mut new_transfers: Vec<(u64, SaveTransferState)> = Vec::new();
    match &state.save.outgoing {
        None => {
            return out;
        },
        Some(d) => {
            let ghost old_t = state.save.transfers@;
            let ghost m = assoc_map(old_t);
            let mut i: usize = 0;
            while i < state.save.transfers.len()
                invariant
                    old_t == state.save.transfers@,
                    m == assoc_map(old_t),
                    keys_distinct(old_t),
                    d@.len() <= u32::MAX,
                    c as nat == chunk_count_for(d@.len()),
                    i <= old_t.len(),
                    keys_distinct(new_transfers@),
                    assoc_map(new_transfers@) == planned_transfers(
                        assoc_map(old_t.take(i as int)),
                        c as nat,
                    ),
                    forall|x: u64| #[trigger] has_key(new_transfers@, x) ==> has_key(old_t.take(i as int), x),
                    keys_distinct(out@),
                    forall|k: int| 0 <= k < out@.len() ==> #[trigger] has_key(old_t.take(i as int), out@[k].0),
                    forall|k: int|
                        0 <= k < out@.len() ==> m.contains_key(#[trigger] out@[k].0) && chunks_sent(
                            m[out@[k].0].send_index as nat,
                            c as nat,
                        ) > 0 && chunks_match(d@, out@[k].1@, m[out@[k].0].send_index as nat, c as nat),
                    forall|j: int|
                        0 <= j < i && chunks_sent(old_t[j].1.send_index as nat, c as nat) > 0
                            ==> #[trigger] has_key(out@, old_t[j].0),
                decreases old_t.len() - i,
            {
                let peer = state.save.transfers[i].0;
                let n0 = state.save.transfers[i].1.send_index;
                let (chunks, n1, done) = plan_peer(d, c, n0);
                let ghost pre = old_t.take(i as int);
                proof {
                    lemma_assoc_lookup(old_t, i as int);
                    assert(old_t.take(i as int + 1) =~= pre.push((peer, old_t[i as int].1)));
                    assert(keys_distinct(pre));
                    assert(!has_key(pre, peer)) by {
                        if has_key(pre, peer) {
                            let j = choose|j: int| 0 <= j < pre.len() && pre[j].0 == peer;
                            assert(old_t[j].0 == peer);
                        }
                    }
                    lemma_assoc_push(pre, peer, old_t[i as int].1);
                }
                let ghost nt0 = new_transfers@;
                if !done {
                    proof {
                        lemma_assoc_push(new_transfers@, peer, SaveTransferState { send_index: n1 });
                    }
                    new_transfers.push((peer, SaveTransferState { send_index: n1 }));
                }
                proof {
                    let pm = assoc_map(pre);
                    let pm2 = assoc_map(old_t.take(i as int + 1));
                    assert(assoc_map(new_transfers@) =~= planned_transfers(pm2, c as nat));
                }
                if chunks.len() > 0 {
                    proof {
                        assert(!has_key(out@, peer)) by {
                            if has_key(out@, peer) {
                                let k = choose|k: int| 0 <= k < out@.len() && out@[k].0 == peer;
                                assert(has_key(pre, out@[k].0));
                            }
                        }
                        crate::assoc::lemma_assoc_push(out@, peer, chunks);
                    }
                    let ghost out0 = out@;
                    out.push((peer, chunks));
                    proof {
                        assert forall|j: int|
                            0 <= j < i + 1 && chunks_sent(old_t[j].1.send_index as nat, c as nat) > 0
                                implies #[trigger] has_key(out@, old_t[j].0) by {
                            if j < i {
                                assert(has_key(out0, old_t[j].0));
                                let k = choose|k: int| 0 <= k < out0.len() && out0[k].0 == old_t[j].0;
                                assert(out@[k] == out0[k]);
                            } else {
                                assert(out@[out0.len() as int].0 == old_t[j].0);
                            }
                        }
                        assert forall|k: int| 0 <= k < out@.len() implies #[trigger] has_key(
                            old_t.take(i as int + 1),
                            out@[k].0,
                        ) by {
                            if k < out0.len() {
                                assert(out@[k] == out0[k]);
                                assert(has_key(old_t.take(i as int), out0[k].0));
                                let j = choose|j: int| 0 <= j < pre.len() && pre[j].0 == out0[k].0;
                                assert(old_t.take(i as int + 1)[j] == pre[j]);
                            } else {
                                assert(old_t.take(i as int + 1)[i as int].0 == peer);
                            }
                        }
                    }
                } else {
                    proof {
                        assert forall|k: int| 0 <= k < out@.len() implies #[trigger] has_key(
                            old_t.take(i as int + 1),
                            out@[k].0,
                        ) by {
                            assert(has_key(old_t.take(i as int), out@[k].0));
                            let j = choose|j: int| 0 <= j < pre.len() && pre[j].0 == out@[k].0;
                            assert(old_t.take(i as int + 1)[j] == pre[j]);
                        }
                    }
                }
                proof {
                    assert forall|x: u64| #[trigger] has_key(new_transfers@, x) implies has_key(
                        old_t.take(i as int + 1),
                        x,
                    ) by {
                        if x == peer {
                            assert(old_t.take(i as int + 1)[i as int].0 == peer);
                        } else {
                            assert(has_key(nt0, x)) by {
                                let j = choose|j: int| 0 <= j < new_transfers@.len() && new_transfers@[j].0 == x;
                                assert(j < nt0.len());
                                assert(nt0[j] == new_transfers@[j]);
                            }
                            assert(has_key(old_t.take(i as int), x));
                            let j = choose|j: int| 0 <= j < pre.len() && pre[j].0 == x;
                            assert(old_t.take(i as int + 1)[j] == pre[j]);
                        }
                    }
                }
                i = i + 1;
            }
            proof {
                assert(old_t.take(old_t.len() as int) =~= old_t);
            }
        },
    }
    state.save.transfers = new_transfers;
    proof {
        crate::assoc::lemma_assoc_len(state.save.transfers@);
    }
    if state.save.transfers.len() == 0 {
        state.save.outgoing = None;
    }
    out
}

} // verus!

verus! {

/// What the host announces before streaming its save.
#[derive(Clone, Copy, PartialEq, Eq, Debug, Structural)]
pub struct SaveOffer {
    pub total_bytes: u32,
    pub chunk_count: u32,
    pub save_hash: u64,
}

/// Host: takes the save bytes to stream. Every waiting client restarts at
/// chunk 0; returns the offer to announce and the clients to announce it to,
/// in transfer order.
pub fn prepare_save_offer<A>(state: &mut MultiplayerState<A>, bytes: Vec<u8>) -> (r: (SaveOffer, Vec<u64>))
    requires
        old(state).wf(),
        0 < bytes@.len() <= u32::MAX,
    ensures
        final(state).wf(),
        r.0.total_bytes == bytes@.len(),
        r.0.chunk_count == chunk_count_for(bytes@.len()),
        r.0.save_hash == save_hash(bytes@),
        final(state).save.outgoing matches Some(d) && d@ == bytes@,
        final(state).save.chunk_count == r.0.chunk_count,
        final(state).save.transfer_map() == Map::new(
            |p: u64| old(state).save.transfer_map().contains_key(p),
            |p: u64| SaveTransferState { send_index: 0 },
        ),
        r.1@ == old(state).save.transfers@.map_values(|p: (u64, SaveTransferState)| p.0),
        final(state).session == old(state).session,
        final(state).tracker == old(state).tracker,
        final(state).save.incoming_data == old(state).save.incoming_data,
        final(state).save.incoming_received == old(state).save.incoming_received,
        final(state).save.data_ready == old(state).save.data_ready,
{
    let total_bytes = bytes.len() as u32;
    let chunk_count = ((bytes.len() as u64 + 59999) / 60000) as u32;
    let save_hash = compute_save_hash(bytes.as_slice());
    let ghost old_t = state.save.transfers@;
    let mut recipients: Vec<u64> = Vec::new();
    let mut restarted: Vec<(u64, SaveTransferState)> = Vec::new();
    let mut i: usize = 0;
    while i < state.save.transfers.len()
        invariant
            old_t == state.save.transfers@,
            keys_distinct(old_t),
            i <= old_t.len(),
            recipients@ == old_t.take(i as int).map_values(|p: (u64, SaveTransferState)| p.0),
            restarted@ == old_t.take(i as int).map_values(
                |p: (u64, SaveTransferState)| (p.0, SaveTransferState { send_index: 0 }),
            ),
        decreases old_t.len() - i,
    {
        let peer = state.save.transfers[i].0;
        recipients.push(peer);
        restarted.push((peer, SaveTransferState { send_index: 0 }));
        proof {
            assert(old_t.take(i as int + 1) =~= old_t.take(i as int).push(old_t[i as int]));
            assert(recipients@ =~= old_t.take(i as int + 1).map_values(|p: (u64, SaveTransferState)| p.0));
            assert(restarted@ =~= old_t.take(i as int + 1).map_values(
                |p: (u64, SaveTransferState)| (p.0, SaveTransferState { send_index: 0 }),
            ));
        }
        i = i + 1;
    }
    proof {
        assert(old_t.take(old_t.len() as int) =~= old_t);
        let rs = restarted@;
        assert(keys_distinct(rs)) by {
            assert forall|a: int, b: int| 0 <= a < rs.len() && 0 <= b < rs.len() && a != b implies rs[a].0 != rs[b].0 by {
                assert(rs[a].0 == old_t[a].0 && rs[b].0 == old_t[b].0);
            }
        }
        assert forall|p: u64| #[trigger] has_key(rs, p) == has_key(old_t, p) by {
            if has_key(rs, p) {
                let j = choose|j: int| 0 <= j < rs.len() && rs[j].0 == p;
                assert(old_t[j].0 == p);
            }
            if has_key(old_t, p) {
                let j = choose|j: int| 0 <= j < old_t.len() && old_t[j].0 == p;
                assert(rs[j].0 == p);
            }
        }
        assert(assoc_map(rs) =~= Map::new(
            |p: u64| assoc_map(old_t).contains_key(p),
            |p: u64| SaveTransferState { send_index: 0 },
        )) by {
            assert forall|p: u64| #[trigger] assoc_map(rs).contains_key(p) implies assoc_map(rs)[p]
                == SaveTransferState { send_index: 0 } by {
                let j = choose|j: int| 0 <= j < rs.len() && rs[j].0 == p;
                lemma_assoc_lookup(rs, j);
            }
        }
    }
    state.save.transfers = restarted;
    state.save.outgoing = Some(bytes);
    state.save.chunk_count = chunk_count;
    (SaveOffer { total_bytes, chunk_count, save_hash }, recipients)
}

/// Host: whether a client waits for a save that has not been provided yet.
pub fn should_send_save(save: &SaveState) -> (b: bool)
    requires
        save.wf(),
    ensures
        b == (save.transfer_map().len() != 0 && save.outgoing is None),
{
    proof {
        crate::assoc::lemma_assoc_len(save.transfers@);
    }
    save.transfers.len() != 0 && save.outgoing.is_none()
}

/// Client: whether a complete save waits to be loaded.
pub fn has_pending_save(save: &SaveState) -> (b: bool)
    ensures
        b == (save.data_ready is Some && !save.loaded),
{
    save.data_ready.is_some() && !save.loaded
}

/// Client: the received save was loaded; it is dropped.
pub fn save_load_complete(save: &mut SaveState)
    requires
        old(save).wf(),
    ensures
        final(save).wf(),
        final(save).data_ready is None,
        final(save).loaded,
        final(save).outgoing == old(save).outgoing,
        final(save).transfers == old(save).transfers,
        final(save).chunk_count == old(save).chunk_count,
        final(save).incoming_data == old(save).incoming_data,
        final(save).incoming_received == old(save).incoming_received,
        final(save).local_hash == old(save).local_hash,
        final(save).up_to_date == old(save).up_to_date,
{
    save.data_ready = None;
    save.loaded = true;
}

/// Records the hash of the local save file; an empty file records 0, which
/// never matches an offer.
pub fn set_local_save_hash(save: &mut SaveState, bytes: &[u8])
    requires
        old(save).wf(),
    ensures
        final(save).wf(),
        final(save).local_hash == if bytes@.len() == 0 { 0 } else { save_hash(bytes@) },
        final(save).outgoing == old(save).outgoing,
        final(save).transfers == old(save).transfers,
        final(save).chunk_count == old(save).chunk_count,
        final(save).incoming_data == old(save).incoming_data,
        final(save).incoming_received == old(save).incoming_received,
        final(save).data_ready == old(save).data_ready,
        final(save).up_to_date == old(save).up_to_date,
{
    if bytes.len() == 0 {
        save.local_hash = 0;
    } else {
        save.local_hash = compute_save_hash(bytes);
    }
}

/// The number of set flags among the first `n` of `flags`.
pub open spec fn count_set(flags: Seq<bool>, n: int) -> nat
    decreases n,
{
    if n <= 0 {
        0
    } else {
        count_set(flags, n - 1) + if flags[n - 1] { 1nat } else { 0nat }
    }
}

/// Client: how many chunks of the current transfer have arrived.
pub fn received_chunk_count(save: &SaveState) -> (n: usize)
    ensures
        n == count_set(save.incoming_received@, save.incoming_received@.len() as int),
{
    let mut n: usize = 0;
    let mut i: usize = 0;
    while i < save.incoming_received.len()
        invariant
            i <= save.incoming_received@.len(),
            n == count_set(save.incoming_received@, i as int),
            n <= i,
        decreases save.incoming_received@.len() - i,
    {
        if save.incoming_received[i] {
            n = n + 1;
        }
        i = i + 1;
    }
    n
}

} // verus!

verus! {

/// The buffer after writing, in `order`, the chunks of `d` with those indices.
pub open spec fn apply_chunks(buf: Seq<u8>, d: Seq<u8>, order: Seq<nat>) -> Seq<u8>
    decreases order.len(),
{
    if order.len() == 0 {
        buf
    } else {
        write_chunk(
            apply_chunks(buf, d, order.drop_last()),
            order.last(),
            chunk_of(d, order.last()),
        )
    }
}

/// Writing chunk `i` of `d` changes exactly the positions of that chunk,
/// and sets them to the bytes of `d`.
proof fn lemma_write_own_chunk(buf: Seq<u8>, d: Seq<u8>, i: nat, p: int)
    requires
        buf.len() == d.len(),
        0 <= p < d.len(),
    ensures
        write_chunk(buf, i, chunk_of(d, i)).len() == d.len(),
        write_chunk(buf, i, chunk_of(d, i))[p] == if p / (SAVE_CHUNK_SIZE as int) == i {
            d[p]
        } else {
            buf[p]
        },
{
}

/// Writing, in any order, chunks of `d` into a zeroed buffer of its length
/// leaves every position whose chunk was written equal to `d`, and the rest zero.
proof fn lemma_apply_chunks_pointwise(d: Seq<u8>, order: Seq<nat>)
    ensures
        apply_chunks(zeroed(d.len()), d, order).len() == d.len(),
        forall|p: int|
            0 <= p < d.len() ==> #[trigger] apply_chunks(zeroed(d.len()), d, order)[p]
                == if order.contains((p / (SAVE_CHUNK_SIZE as int)) as nat) {
                d[p]
            } else {
                0u8
            },
    decreases order.len(),
{
    let z = zeroed(d.len());
    if order.len() > 0 {
        let pre = order.drop_last();
        let i = order.last();
        lemma_apply_chunks_pointwise(d, pre);
        let r = apply_chunks(z, d, pre);
        assert forall|p: int| 0 <= p < d.len() implies #[trigger] apply_chunks(z, d, order)[p] == if order.contains(
            (p / (SAVE_CHUNK_SIZE as int)) as nat,
        ) {
            d[p]
        } else {
            0u8
        } by {
            lemma_write_own_chunk(r, d, i, p);
            let x = (p / (SAVE_CHUNK_SIZE as int)) as nat;
            if pre.contains(x) {
                let k = choose|k: int| 0 <= k < pre.len() && pre[k] == x;
                assert(order[k] == x);
            }
            if order.contains(x) && x != i {
                let k = choose|k: int| 0 <= k < order.len() && order[k] == x;
                assert(k < pre.len());
                assert(pre[k] == x);
            }
            if x == i {
                assert(order[order.len() - 1] == x);
            }
        }
    }
}

/// Every position of a save lies in a chunk below the chunk count.
proof fn lemma_position_chunk_below_count(p: int, len: nat)
    requires
        0 <= p < len,
    ensures
        (p / (SAVE_CHUNK_SIZE as int)) < chunk_count_for(len),
{
}

/// Reassembly: writing every chunk of `d` (each at least once, in any order,
/// repeats and extra indices allowed) into the zeroed buffer a client
/// prepares for an offer of `d.len()` bytes gives back exactly `d`.
pub proof fn lemma_chunks_reassemble(d: Seq<u8>, order: Seq<nat>)
    requires
        forall|i: nat| i < chunk_count_for(d.len()) ==> #[trigger] order.contains(i),
    ensures
        apply_chunks(zeroed(d.len()), d, order) == d,
{
    lemma_apply_chunks_pointwise(d, order);
    let r = apply_chunks(zeroed(d.len()), d, order);
    assert forall|p: int| 0 <= p < d.len() implies r[p] == d[p] by {
        lemma_position_chunk_below_count(p, d.len());
        assert(order.contains((p / (SAVE_CHUNK_SIZE as int)) as nat));
    }
    assert(r =~= d);
}

/// A client right after accepting the host's offer of `d`: a zeroed buffer
/// of `d.len()` bytes and no chunk received yet.
pub open spec fn awaiting_chunks<A>(st: MultiplayerState<A>, d: Seq<u8>) -> bool {
    &&& !st.session.is_host
    &&& !st.save.up_to_date
    &&& st.save.incoming_data@ == zeroed(d.len())
    &&& st.save.incoming_received@ == Seq::new(chunk_count_for(d.len()), |x: int| false)
    &&& st.save.data_ready is None
}

/// `order` names every chunk of a save of `len` bytes exactly once.
pub open spec fn each_chunk_once(order: Seq<u32>, len: nat) -> bool {
    &&& order.len() == chunk_count_for(len)
    &&& order.no_duplicates()
    &&& forall|j: int| 0 <= j < order.len() ==> #[trigger] order[j] < chunk_count_for(len)
}

/// One of the first `m` indices of `order` is `x`.
pub open spec fn sent_among(order: Seq<u32>, m: int, x: int) -> bool {
    exists|j: int| 0 <= j < m && #[trigger] order[j] as int == x
}

/// The chunk indices of `order`, as naturals.
pub open spec fn order_nat(order: Seq<u32>) -> Seq<nat> {
    order.map_values(|x: u32| x as nat)
}

/// `k` distinct indices, all below `k`, name every index below `k`.
proof fn lemma_distinct_indices_cover(order: Seq<u32>, k: nat)
    requires
        order.len() == k,
        order.no_duplicates(),
        forall|j: int| 0 <= j < order.len() ==> #[trigger] order[j] < k,
    ensures
        forall|x: int| 0 <= x < k ==> #[trigger] sent_among(order, k as int, x),
{
    let t = order.map_values(|x: u32| x as int);
    assert(t.no_duplicates()) by {
        assert forall|a: int, b: int| 0 <= a < t.len() && 0 <= b < t.len() && a != b implies t[a] != t[b] by {
            assert(order[a] != order[b]);
        }
    }
    t.unique_seq_to_set();
    vstd::set_lib::lemma_int_range(0, k as int);
    let r = vstd::set_lib::set_int_range(0, k as int);
    assert(t.to_set().subset_of(r)) by {
        assert forall|x: int| t.to_set().contains(x) implies r.contains(x) by {
            let j = choose|j: int| 0 <= j < t.len() && t[j] == x;
            assert(order[j] < k);
        }
    }
    vstd::seq_lib::seq_to_set_is_finite(t);
    vstd::set_lib::lemma_subset_equality(t.to_set(), r);
    assert forall|x: int| 0 <= x < k implies #[trigger] sent_among(order, k as int, x) by {
        assert(r.contains(x));
        assert(t.to_set().contains(x));
        let j = choose|j: int| 0 <= j < t.len() && t[j] == x;
        assert(order[j] as int == x);
    }
}

/// The first `m` messages of a delivery (`m` short of all chunks) leave the
/// client holding exactly those chunks, nothing ready yet.
proof fn lemma_chunk_prefix<A>(
    states: Seq<MultiplayerState<A>>,
    done: Seq<bool>,
    d: Seq<u8>,
    order: Seq<u32>,
    m: int,
)
    requires
        awaiting_chunks(states[0], d),
        each_chunk_once(order, d.len()),
        states.len() == order.len() + 1,
        done.len() == order.len(),
        forall|j: int|
            #![trigger order[j]]
            0 <= j < order.len() ==> chunk_received(
                states[j],
                states[j + 1],
                order[j],
                chunk_of(d, order[j] as nat),
                done[j],
            ),
        0 <= m < order.len(),
    ensures
        !states[m].session.is_host,
        !states[m].save.up_to_date,
        states[m].save.data_ready is None,
        states[m].save.incoming_data@ == apply_chunks(zeroed(d.len()), d, order_nat(order).take(m)),
        states[m].save.incoming_received@ == Seq::new(
            chunk_count_for(d.len()),
            |x: int| sent_among(order, m, x),
        ),
        forall|j: int| 0 <= j < m ==> !(#[trigger] done[j]),
    decreases m,
{
    let k = chunk_count_for(d.len());
    if m == 0 {
        assert(order_nat(order).take(0) =~= Seq::<nat>::empty());
        assert(states[0].save.incoming_received@ =~= Seq::new(k, |x: int| sent_among(order, 0, x)));
    } else {
        lemma_chunk_prefix(states, done, d, order, m - 1);
        let b = states[m - 1];
        let a = states[m];
        let idx = order[m - 1];
        assert(chunk_received(b, a, idx, chunk_of(d, idx as nat), done[m - 1]));
        assert(idx < k);
        let flags = b.save.incoming_received@.update(idx as int, true);
        assert(flags =~= Seq::new(k, |x: int| sent_among(order, m, x))) by {
            assert forall|x: int| 0 <= x < k implies flags[x] == sent_among(order, m, x) by {
                if x == idx as int {
                    assert(order[m - 1] as int == x);
                } else {
                    if sent_among(order, m, x) {
                        let j = choose|j: int| 0 <= j < m && #[trigger] order[j] as int == x;
                        assert(j != m - 1);
                        assert(sent_among(order, m - 1, x));
                    }
                    if sent_among(order, m - 1, x) {
                        let j = choose|j: int| 0 <= j < m - 1 && #[trigger] order[j] as int == x;
                        assert(sent_among(order, m, x));
                    }
                }
            }
        }
        let nxt = order[m];
        assert(nxt < k);
        assert(!flags[nxt as int]) by {
            if sent_among(order, m, nxt as int) {
                let j = choose|j: int| 0 <= j < m && #[trigger] order[j] as int == nxt as int;
                assert(order[j] == order[m]);
            }
        }
        assert(!done[m - 1]);
        assert(order_nat(order).take(m).drop_last() =~= order_nat(order).take(m - 1));
        assert(order_nat(order).take(m).last() == idx as nat);
    }
}

/// Delivery: after a client accepted the host's offer of `d`, the host's
/// chunk messages, each chunk exactly once in any order, leave the save
/// pending until the last one, which completes it: the ready save is `d`
/// and the join state is `SaveReady`.
pub proof fn lemma_chunk_messages_deliver_save<A>(
    states: Seq<MultiplayerState<A>>,
    done: Seq<bool>,
    d: Seq<u8>,
    order: Seq<u32>,
)
    requires
        d.len() > 0,
        awaiting_chunks(states[0], d),
        each_chunk_once(order, d.len()),
        states.len() == order.len() + 1,
        done.len() == order.len(),
        forall|j: int|
            #![trigger order[j]]
            0 <= j < order.len() ==> chunk_received(
                states[j],
                states[j + 1],
                order[j],
                chunk_of(d, order[j] as nat),
                done[j],
            ),
    ensures
        states.last().save.data_ready matches Some(r) && r@ == d,
        states.last().session.join_state == JoinState::SaveReady,
        states.last().save.incoming_received@.len() == 0,
        forall|j: int| 0 <= j < done.len() ==> #[trigger] done[j] == (j == done.len() - 1),
        forall|j: int| 0 <= j < order.len() ==> (#[trigger] states[j]).save.data_ready is None,
{
    let k = chunk_count_for(d.len());
    let n = order.len() as int;
    assert(k > 0);
    assert forall|j: int| 0 <= j < order.len() implies (#[trigger] states[j]).save.data_ready is None by {
        lemma_chunk_prefix(states, done, d, order, j);
    }
    lemma_chunk_prefix(states, done, d, order, n - 1);
    let b = states[n - 1];
    let a = states[n];
    let idx = order[n - 1];
    assert(chunk_received(b, a, idx, chunk_of(d, idx as nat), done[n - 1]));
    assert(idx < k);
    lemma_distinct_indices_cover(order, k);
    let flags = b.save.incoming_received@.update(idx as int, true);
    assert forall|x: int| 0 <= x < flags.len() implies flags[x] by {
        assert(sent_among(order, n, x));
        if x != idx as int {
            let j = choose|j: int| 0 <= j < n && #[trigger] order[j] as int == x;
            assert(j != n - 1);
            assert(sent_among(order, n - 1, x));
        }
    }
    assert(done[n - 1]);
    assert(order_nat(order).take(n).drop_last() =~= order_nat(order).take(n - 1));
    assert(order_nat(order).take(n) =~= order_nat(order));
    assert forall|i: nat| i < chunk_count_for(d.len()) implies #[trigger] order_nat(order).contains(i) by {
        assert(sent_among(order, n, i as int));
        let j = choose|j: int| 0 <= j < n && #[trigger] order[j] as int == i as int;
        assert(order_nat(order)[j] == i);
    }
    lemma_chunks_reassemble(d, order_nat(order));
    assert forall|j: int| 0 <= j < done.len() implies #[trigger] done[j] == (j == done.len() - 1) by {
        if j < n - 1 {
            lemma_chunk_prefix(states, done, d, order, n - 1);
        }
    }
}

/// Delivery from the offer: a client (not the host) whose local save does
/// not carry the offered hash accepts the host's offer of `d`; then the
/// host's chunk messages, each chunk exactly once in any order, leave the
/// save pending until the last one, which completes it: the ready save is
/// `d`, the chunk flags are cleared and the join state is `SaveReady`.
pub proof fn lemma_offer_then_chunks_deliver_save<A>(
    before: MultiplayerState<A>,
    states: Seq<MultiplayerState<A>>,
    done: Seq<bool>,
    d: Seq<u8>,
    save_hash: u64,
    order: Seq<u32>,
)
    requires
        d.len() > 0,
        d.len() <= u32::MAX,
        !before.session.is_host,
        before.save.local_hash == 0 || before.save.local_hash != save_hash,
        states.len() == order.len() + 1,
        offer_received(
            before,
            states[0],
            d.len() as u32,
            chunk_count_for(d.len()) as u32,
            save_hash,
            false,
        ),
        each_chunk_once(order, d.len()),
        done.len() == order.len(),
        forall|j: int|
            #![trigger order[j]]
            0 <= j < order.len() ==> chunk_received(
                states[j],
                states[j + 1],
                order[j],
                chunk_of(d, order[j] as nat),
                done[j],
            ),
    ensures
        states.last().save.data_ready matches Some(r) && r@ == d,
        states.last().session.join_state == JoinState::SaveReady,
        states.last().save.incoming_received@.len() == 0,
        forall|j: int| 0 <= j < done.len() ==> #[trigger] done[j] == (j == done.len() - 1),
        forall|j: int| 0 <= j < order.len() ==> (#[trigger] states[j]).save.data_ready is None,
{
    assert(chunk_count_for(d.len()) <= d.len());
    assert(awaiting_chunks(states[0], d));
    lemma_chunk_messages_deliver_save(states, done, d, order);
}

} // verus!

