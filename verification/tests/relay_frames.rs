use dc_mods::relay_proto::{
    encode_frame, frame_payload_len, hash_tag, room_code_from_seed, split_frame, FrameError,
    MAX_PACKET_SIZE, ROOM_CODE_LEN,
};
use dc_mods::relay_proto::{packet_to_notice, RelayNotice, RelayPacket};

#[test]
fn frame_prefixes_little_endian_length() {
    let buf = encode_frame(&[7, 8, 9]);
    assert_eq!(buf, vec![3, 0, 0, 0, 7, 8, 9]);
    let big = vec![1u8; 300];
    let framed = encode_frame(&big);
    assert_eq!(&framed[..4], &[44, 1, 0, 0]);
    assert_eq!(framed.len(), 304);
}

#[test]
fn frame_roundtrip_concrete() {
    let payload = vec![0xAB, 0xCD, 0x00, 0x01];
    let buf = encode_frame(&payload);
    let (back, used) = split_frame(&buf).unwrap();
    assert_eq!(back, payload);
    assert_eq!(used, buf.len());
}

#[test]
fn split_frame_leaves_following_bytes() {
    let mut buf = encode_frame(&[5, 6]);
    buf.extend_from_slice(&[9, 9, 9]);
    assert_eq!(split_frame(&buf), Ok((vec![5, 6], 6)));
}

#[test]
fn split_frame_truncated_header_and_payload() {
    assert_eq!(split_frame(&[1, 0, 0]), Err(FrameError::Truncated));
    assert_eq!(split_frame(&[]), Err(FrameError::Truncated));
    assert_eq!(split_frame(&[5, 0, 0, 0, 1, 2]), Err(FrameError::Truncated));
}

#[test]
fn header_rejects_zero_and_oversized_lengths() {
    assert_eq!(frame_payload_len(&[0, 0, 0, 0]), Err(FrameError::InvalidLength(0)));
    assert_eq!(frame_payload_len(&[0x01, 0x20, 0, 0]), Err(FrameError::InvalidLength(8193)));
    assert_eq!(frame_payload_len(&[0x00, 0x20, 0, 0]), Ok(MAX_PACKET_SIZE));
    assert_eq!(frame_payload_len(&[1, 0, 0, 0]), Ok(1));
    assert_eq!(split_frame(&[0xFF, 0xFF, 0xFF, 0xFF]), Err(FrameError::InvalidLength(u32::MAX)));
}

#[test]
fn room_codes_are_deterministic_per_seed() {
    assert_eq!(room_code_from_seed(0, 0), "9JTWP5");
    assert_eq!(room_code_from_seed(12345, 678), "W9FAW7");
    assert_eq!(room_code_from_seed(u64::MAX, 5), "4N85B5");
    assert_eq!(room_code_from_seed(12345, 678), room_code_from_seed(678, 12345));
}

#[test]
fn room_codes_use_the_code_alphabet() {
    for seed in [0u64, 1, 42, 99_999, u64::MAX] {
        let code = room_code_from_seed(seed, 17);
        assert_eq!(code.len(), ROOM_CODE_LEN);
        assert!(code.chars().all(|c| "ABCDEFGHJKLMNPQRSTUVWXYZ23456789".contains(c)));
    }
}

#[test]
fn tag_hash_folds_bytes() {
    assert_eq!(hash_tag(b""), 0);
    assert_eq!(hash_tag(b"ab"), 3105);
    assert_eq!(hash_tag(b"ThreadId(1)"), 71698594184598843);
}

#[test]
fn server_packets_become_notices() {
    assert_eq!(
        packet_to_notice(RelayPacket::RoomCreated { room_code: "ABCDEF".to_string() }),
        RelayNotice::RoomCreated("ABCDEF".to_string())
    );
    assert_eq!(
        packet_to_notice(RelayPacket::PeerData { sender_steam_id: 4, payload: vec![1, 2] }),
        RelayNotice::PeerData { sender: 4, payload: vec![1, 2] }
    );
    assert_eq!(packet_to_notice(RelayPacket::PeerLeft { steam_id: 8 }), RelayNotice::PeerLeft(8));
    assert_eq!(packet_to_notice(RelayPacket::Heartbeat), RelayNotice::Unexpected);
    assert_eq!(packet_to_notice(RelayPacket::CreateRoom { steam_id: 1 }), RelayNotice::Unexpected);
}
