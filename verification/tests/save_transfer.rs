use dc_mods::multiplayer::save::{
    compute_save_hash, handle_request_save, handle_save_chunk, handle_save_offer, handle_save_skip,
    has_pending_save, on_peer_left, plan_outgoing_chunks, prepare_save_offer, received_chunk_count,
    save_load_complete, set_local_save_hash, should_send_save, MAX_CHUNKS_PER_FRAME,
};
use dc_mods::multiplayer::state::{JoinState, MultiplayerState, SAVE_CHUNK_SIZE};
use std::hash::{Hash, Hasher};

fn host() -> MultiplayerState<()> {
    let mut s = MultiplayerState::new();
    s.session.is_host = true;
    s
}

fn client() -> MultiplayerState<()> {
    MultiplayerState::new()
}

fn save_bytes(n: usize) -> Vec<u8> {
    (0..n).map(|i| (i % 251) as u8).collect()
}

fn std_hash(data: &[u8]) -> u64 {
    let mut h = std::collections::hash_map::DefaultHasher::new();
    data.hash(&mut h);
    h.finish()
}

#[test]
fn save_hash_matches_hashing_the_slice() {
    for data in [vec![], vec![1u8], save_bytes(70_000)] {
        assert_eq!(compute_save_hash(&data), std_hash(&data));
    }
    assert_ne!(compute_save_hash(&[1, 2, 3]), compute_save_hash(&[1, 2, 4]));
}

#[test]
fn request_save_registers_client_once_on_host_only() {
    let mut h = host();
    handle_request_save(&mut h, 77);
    handle_request_save(&mut h, 77);
    assert_eq!(h.save.transfers.len(), 1);
    assert!(should_send_save(&h.save));

    let mut c = client();
    handle_request_save(&mut c, 77);
    assert!(c.save.transfers.is_empty());
    assert!(!should_send_save(&c.save));
}

#[test]
fn offer_counts_chunks_and_hashes() {
    let mut h = host();
    handle_request_save(&mut h, 5);
    handle_request_save(&mut h, 6);
    let data = save_bytes(2 * SAVE_CHUNK_SIZE + 10_000);
    let (offer, recipients) = prepare_save_offer(&mut h, data.clone());
    assert_eq!(offer.total_bytes, 130_000);
    assert_eq!(offer.chunk_count, 3);
    assert_eq!(offer.save_hash, std_hash(&data));
    assert_eq!(recipients, vec![5, 6]);
    assert!(!should_send_save(&h.save));

    let (exact, _) = prepare_save_offer(&mut h, save_bytes(SAVE_CHUNK_SIZE));
    assert_eq!(exact.chunk_count, 1);
}

#[test]
fn host_streams_chunks_and_client_reassembles() {
    let data = save_bytes(2 * SAVE_CHUNK_SIZE + 10_000);
    let mut h = host();
    handle_request_save(&mut h, 9);
    let (offer, _) = prepare_save_offer(&mut h, data.clone());

    let out = plan_outgoing_chunks(&mut h);
    assert_eq!(out.len(), 1);
    let (peer, chunks) = &out[0];
    assert_eq!(*peer, 9);
    assert_eq!(chunks.len(), 3);
    assert_eq!(chunks[2].0, 2);
    assert_eq!(chunks[2].1.len(), 10_000);
    assert!(h.save.transfers.is_empty());
    assert!(h.save.outgoing.is_none());
    assert!(plan_outgoing_chunks(&mut h).is_empty());

    let mut c = client();
    assert!(!handle_save_offer(&mut c, offer.total_bytes, offer.chunk_count, offer.save_hash));
    assert!(!handle_save_chunk(&mut c, chunks[2].0, &chunks[2].1));
    assert!(!handle_save_chunk(&mut c, chunks[0].0, &chunks[0].1));
    assert_eq!(received_chunk_count(&c.save), 2);
    assert!(!has_pending_save(&c.save));
    assert!(handle_save_chunk(&mut c, chunks[1].0, &chunks[1].1));
    assert_eq!(c.save.data_ready.as_deref(), Some(&data[..]));
    assert!(has_pending_save(&c.save));
    save_load_complete(&mut c.save);
    assert!(!has_pending_save(&c.save));
    assert!(c.save.loaded);
}

#[test]
fn chunks_per_frame_are_capped() {
    let data = save_bytes(7 * SAVE_CHUNK_SIZE);
    let mut h = host();
    handle_request_save(&mut h, 1);
    prepare_save_offer(&mut h, data.clone());
    let first = plan_outgoing_chunks(&mut h);
    assert_eq!(first[0].1.len(), MAX_CHUNKS_PER_FRAME as usize);
    assert_eq!(h.save.transfers[0].1.send_index, 5);
    let second = plan_outgoing_chunks(&mut h);
    let indices: Vec<u32> = second[0].1.iter().map(|c| c.0).collect();
    assert_eq!(indices, vec![5, 6]);
    assert!(h.save.outgoing.is_none());
}

#[test]
fn out_of_range_or_host_chunks_are_ignored() {
    let mut c = client();
    handle_save_offer(&mut c, 10, 1, 1234);
    assert!(!handle_save_chunk(&mut c, 3, &[1, 2]));
    assert_eq!(received_chunk_count(&c.save), 0);
    let mut h = host();
    assert!(!handle_save_chunk(&mut h, 0, &[1]));
}

#[test]
fn matching_local_hash_skips_transfer() {
    let data = save_bytes(1000);
    let mut c = client();
    set_local_save_hash(&mut c.save, &data);
    assert_eq!(c.save.local_hash, std_hash(&data));
    assert!(handle_save_offer(&mut c, 1000, 1, std_hash(&data)));
    assert!(c.save.up_to_date);
    assert_eq!(c.session.join_state, JoinState::SaveUpToDate);

    set_local_save_hash(&mut c.save, &[]);
    assert_eq!(c.save.local_hash, 0);
    assert!(!handle_save_offer(&mut c, 1000, 1, 0));
}

#[test]
fn skip_and_peer_left_end_a_transfer() {
    let mut h = host();
    handle_request_save(&mut h, 1);
    handle_request_save(&mut h, 2);
    handle_save_skip(&mut h, 1);
    assert_eq!(h.save.transfers.len(), 1);
    h.tracker.add_player(2, "two".to_string());
    h.tracker.set_entity_id(2, 44);
    assert_eq!(on_peer_left(&mut h, 2), Some(44));
    assert!(h.save.transfers.is_empty());
    assert!(!h.tracker.has_player(2));
}

#[test]
fn offer_leaves_session_as_it_was() {
    let mut c = client();
    c.session.connected = true;
    c.session.peer_id = 5;
    c.session.my_id = 9;
    c.save.loaded = true;
    assert!(!handle_save_offer(&mut c, 10, 1, 1234));
    assert!(!c.session.is_host);
    assert!(c.session.connected);
    assert_eq!(c.session.peer_id, 5);
    assert_eq!(c.session.my_id, 9);
    assert!(c.save.loaded);
    assert_eq!(c.save.incoming_data, vec![0u8; 10]);
    assert!(handle_save_chunk(&mut c, 0, &[7u8; 10]));
    assert_eq!(c.save.data_ready, Some(vec![7u8; 10]));
    assert_eq!(c.session.join_state, JoinState::SaveReady);
}
