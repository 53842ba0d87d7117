//! The relay protocol: the packets exchanged between relay clients and the
//! relay server, and their length-prefixed framing on the wire
//! (`[u32 little-endian length][payload]`).

use vstd::prelude::*;
use vstd::bytes::{
    lemma_auto_spec_u32_to_from_le_bytes, spec_u32_from_le_bytes, spec_u32_to_le_bytes,
    u32_from_le_bytes, u32_to_le_bytes,
};

verus! {

/// Packets exchanged between relay clients and the relay server.
#[derive(Debug, Clone, PartialEq, Eq)]
pub enum RelayPacket {
    CreateRoom { steam_id: u64 },
    JoinRoom { room_code: String, steam_id: u64 },
    LeaveRoom,
    GameData { payload: Vec<u8> },
    GameDataCheck { checksum: u32 },
    Heartbeat,
    RoomCreated { room_code: String },
    JoinOk { host_steam_id: u64 },
    RoomNotFound,
    RoomFull,
    PeerJoined { steam_id: u64 },
    PeerLeft { steam_id: u64 },
    PeerData { sender_steam_id: u64, payload: Vec<u8> },
    ServerError { message: String },
}

/// What a packet from the relay server tells a client.
#[derive(Debug, Clone, PartialEq, Eq)]
pub enum RelayNotice {
    RoomCreated(String),
    JoinOk { host_steam_id: u64 },
    RoomNotFound,
    RoomFull,
    PeerJoined(u64),
    PeerLeft(u64),
    /// Game data relayed from another player, still encoded.
    PeerData { sender: u64, payload: Vec<u8> },
    ServerError(String),
    /// A packet only clients send (or the server's check packet).
    Unexpected,
}

/// Reads a packet received from the relay server.
pub fn packet_to_notice(packet: RelayPacket) -> (n: RelayNotice)
    ensures
        match packet {
            RelayPacket::RoomCreated { room_code } => n == RelayNotice::RoomCreated(room_code),
            RelayPacket::JoinOk { host_steam_id } => n == (RelayNotice::JoinOk { host_steam_id }),
            RelayPacket::RoomNotFound => n == RelayNotice::RoomNotFound,
            RelayPacket::RoomFull => n == RelayNotice::RoomFull,
            RelayPacket::PeerJoined { steam_id } => n == RelayNotice::PeerJoined(steam_id),
            RelayPacket::PeerLeft { steam_id } => n == RelayNotice::PeerLeft(steam_id),
            RelayPacket::PeerData { sender_steam_id, payload } => n == (RelayNotice::PeerData {
                sender: sender_steam_id,
                payload,
            }),
            RelayPacket::ServerError { message } => n == RelayNotice::ServerError(message),
            _ => n == RelayNotice::Unexpected,
        },
{
    match packet {
        RelayPacket::RoomCreated { room_code } => RelayNotice::RoomCreated(room_code),
        RelayPacket::JoinOk { host_steam_id } => RelayNotice::JoinOk { host_steam_id },
        RelayPacket::RoomNotFound => RelayNotice::RoomNotFound,
        RelayPacket::RoomFull => RelayNotice::RoomFull,
        RelayPacket::PeerJoined { steam_id } => RelayNotice::PeerJoined(steam_id),
        RelayPacket::PeerLeft { steam_id } => RelayNotice::PeerLeft(steam_id),
        RelayPacket::PeerData { sender_steam_id, payload } => RelayNotice::PeerData {
            sender: sender_steam_id,
            payload,
        },
        RelayPacket::ServerError { message } => RelayNotice::ServerError(message),
        _ => RelayNotice::Unexpected,
    }
}

/// Largest payload a frame may announce.
pub const MAX_PACKET_SIZE: usize = 8192;

/// Port the relay server listens on.
pub const DEFAULT_PORT: u16 = 9943;

/// Length of a room code.
pub const ROOM_CODE_LEN: usize = 6;

/// Players a room admits.
pub const MAX_PLAYERS_PER_ROOM: usize = 8;

/// Why a frame cannot be read.
#[derive(Debug, Clone, Copy, PartialEq, Eq, Structural)]
pub enum FrameError {
    /// The bytes end before the header or the announced payload does.
    Truncated,
    /// The header announces an empty payload or one over `MAX_PACKET_SIZE`.
    InvalidLength(u32),
}

/// The frame of an encoded packet: its length (as a `u32`, little-endian),
/// then the bytes.
pub open spec fn frame(payload: Seq<u8>) -> Seq<u8> {
    spec_u32_to_le_bytes(payload.len() as u32) + payload
}

/// Frames an encoded packet for the wire.
pub fn encode_frame(payload: &[u8]) -> (buf: Vec<u8>)
    ensures
        buf@ == frame(payload@),
{
    let len = payload.len() as u32;
    let mut buf = u32_to_le_bytes(len);
    let mut i: usize = 0;
    let ghost head = buf@;
    while i < payload.len()
        invariant
            i <= payload@.len(),
            buf@ == head + payload@.take(i as int),
        decreases payload@.len() - i,
    {
        buf.push(payload[i]);
        proof {
            assert(payload@.take(i as int + 1) =~= payload@.take(i as int).push(payload@[i as int]));
        }
        i = i + 1;
    }
    proof {
        assert(payload@.take(payload@.len() as int) =~= payload@);
    }
    buf
}

/// The payload length a frame header announces, if it is acceptable:
/// non-zero and at most `MAX_PACKET_SIZE`.
pub open spec fn spec_frame_len(header: Seq<u8>) -> Result<usize, FrameError> {
    let len = spec_u32_from_le_bytes(header);
    if len == 0 || len > MAX_PACKET_SIZE {
        Err(FrameError::InvalidLength(len))
    } else {
        Ok(len as usize)
    }
}

/// Reads a frame header: the announced payload length, or `InvalidLength`
/// when it is zero or over `MAX_PACKET_SIZE`.
pub fn frame_payload_len(header: &[u8]) -> (r: Result<usize, FrameError>)
    requires
        header@.len() == 4,
    ensures
        r == spec_frame_len(header@),
{
    let len = u32_from_le_bytes(header);
    if len == 0 || len as usize > MAX_PACKET_SIZE {
        Err(FrameError::InvalidLength(len))
    } else {
        Ok(len as usize)
    }
}

/// Splits the first frame off `buf`: its payload and the number of bytes it
/// takes. `Truncated` when `buf` ends before the header or the payload does;
/// `InvalidLength` when the header is not acceptable.
pub fn split_frame(buf: &[u8]) -> (r: Result<(Vec<u8>, usize), FrameError>)
    ensures
        buf@.len() < 4 ==> r == Err::<(Vec<u8>, usize), FrameError>(FrameError::Truncated),
        buf@.len() >= 4 ==> match spec_frame_len(buf@.take(4)) {
            Err(e) => r == Err::<(Vec<u8>, usize), FrameError>(e),
            Ok(len) => if buf@.len() < 4 + len {
                r == Err::<(Vec<u8>, usize), FrameError>(FrameError::Truncated)
            } else {
                r matches Ok((p, n)) && n == 4 + len && p@ == buf@.subrange(4, 4 + len)
            },
        },
{
    if buf.len() < 4 {
        return Err(FrameError::Truncated);
    }
    let header = vstd::slice::slice_subrange(buf, 0, 4);
    assert(header@ == buf@.take(4));
    match frame_payload_len(header) {
        Err(e) => Err(e),
        Ok(len) => {
            if buf.len() - 4 < len {
                Err(FrameError::Truncated)
            } else {
                let payload = vstd::slice::slice_to_vec(vstd::slice::slice_subrange(buf, 4, 4 + len));
                Ok((payload, 4 + len))
            }
        },
    }
}

/// Round trip: a frame of an acceptable payload splits back into exactly
/// that payload, consuming the whole frame.
pub proof fn lemma_frame_roundtrip(payload: Seq<u8>)
    requires
        0 < payload.len() <= MAX_PACKET_SIZE,
    ensures
        frame(payload).take(4) == spec_u32_to_le_bytes(payload.len() as u32),
        spec_frame_len(frame(payload).take(4)) == Ok::<usize, FrameError>(payload.len() as usize),
        frame(payload).subrange(4, 4 + payload.len() as int) == payload,
        frame(payload).len() == 4 + payload.len(),
{
    lemma_auto_spec_u32_to_from_le_bytes();
    let h = spec_u32_to_le_bytes(payload.len() as u32);
    assert(frame(payload).take(4) =~= h);
    assert(frame(payload).subrange(4, 4 + payload.len() as int) =~= payload);
}

} // verus!

verus! {

/// One step of the room-code generator (a 64-bit linear congruential generator).
pub open spec fn lcg_step(s: u64) -> u64 {
    s.wrapping_mul(6364136223846793005).wrapping_add(1442695040888963407)
}

/// The generator state after `k` steps from `s0`.
pub open spec fn lcg_state(s0: u64, k: nat) -> u64
    decreases k,
{
    if k == 0 {
        s0
    } else {
        lcg_step(lcg_state(s0, (k - 1) as nat))
    }
}

/// The 32 characters room codes are made of (no `I`, `O`, `0` or `1`).
pub open spec fn code_alphabet() -> Seq<char> {
    seq!['A', 'B', 'C', 'D', 'E', 'F', 'G', 'H', 'J', 'K', 'L', 'M', 'N', 'P', 'Q', 'R', 'S', 'T', 'U', 'V', 'W', 'X', 'Y', 'Z', '2', '3', '4', '5', '6', '7', '8', '9']
}

/// The alphabet position a generator state picks.
pub open spec fn code_index(s: u64) -> int {
    ((s >> 33u64) % 32) as int
}

/// The room code generated from seed `s0`: one character per step.
pub open spec fn room_code_for(s0: u64) -> Seq<char> {
    Seq::new(ROOM_CODE_LEN as nat, |k: int| code_alphabet()[code_index(lcg_state(s0, (k + 1) as nat))])
}

/// The hash of a tag's bytes: `acc * 31 + byte` over the bytes, wrapping.
pub open spec fn tag_hash(bytes: Seq<u8>) -> u64
    decreases bytes.len(),
{
    if bytes.len() == 0 {
        0
    } else {
        tag_hash(bytes.drop_last()).wrapping_mul(31).wrapping_add(bytes.last() as u64)
    }
}

/// Hashes the bytes of a tag (the generating thread's identifier) that is
/// mixed into the room-code seed.
pub fn hash_tag(bytes: &[u8]) -> (h: u64)
    ensures
        h == tag_hash(bytes@),
{
    let mut acc: u64 = 0;
    let mut i: usize = 0;
    while i < bytes.len()
        invariant
            i <= bytes@.len(),
            acc == tag_hash(bytes@.take(i as int)),
        decreases bytes@.len() - i,
    {
        proof {
            assert(bytes@.take(i as int + 1).drop_last() =~= bytes@.take(i as int));
        }
        acc = acc.wrapping_mul(31).wrapping_add(bytes[i] as u64);
        i = i + 1;
    }
    proof {
        assert(bytes@.take(bytes@.len() as int) =~= bytes@);
    }
    acc
}

/// The one-character string at position `idx` of the code alphabet.
fn code_char(idx: u64) -> (s: &'static str)
    requires
        idx < 32,
    ensures
        s@ == seq![code_alphabet()[idx as int]],
{
    match idx {
        0 => {
            proof {
                reveal_strlit("A");
            }
            "A"
        },
        1 => {
            proof {
                reveal_strlit("B");
            }
            "B"
        },
        2 => {
            proof {
                reveal_strlit("C");
            }
            "C"
        },
        3 => {
            proof {
                reveal_strlit("D");
            }
            "D"
        },
        4 => {
            proof {
                reveal_strlit("E");
            }
            "E"
        },
        5 => {
            proof {
                reveal_strlit("F");
            }
            "F"
        },
        6 => {
            proof {
                reveal_strlit("G");
            }
            "G"
        },
        7 => {
            proof {
                reveal_strlit("H");
            }
            "H"
        },
        8 => {
            proof {
                reveal_strlit("J");
            }
            "J"
        },
        9 => {
            proof {
                reveal_strlit("K");
            }
            "K"
        },
        10 => {
            proof {
                reveal_strlit("L");
            }
            "L"
        },
        11 => {
            proof {
                reveal_strlit("M");
            }
            "M"
        },
        12 => {
            proof {
                reveal_strlit("N");
            }
            "N"
        },
        13 => {
            proof {
                reveal_strlit("P");
            }
            "P"
        },
        14 => {
            proof {
                reveal_strlit("Q");
            }
            "Q"
        },
        15 => {
            proof {
                reveal_strlit("R");
            }
            "R"
        },
        16 => {
            proof {
                reveal_strlit("S");
            }
            "S"
        },
        17 => {
            proof {
                reveal_strlit("T");
            }
            "T"
        },
        18 => {
            proof {
                reveal_strlit("U");
            }
            "U"
        },
        19 => {
            proof {
                reveal_strlit("V");
            }
            "V"
        },
        20 => {
            proof {
                reveal_strlit("W");
            }
            "W"
        },
        21 => {
            proof {
                reveal_strlit("X");
            }
            "X"
        },
        22 => {
            proof {
                reveal_strlit("Y");
            }
            "Y"
        },
        23 => {
            proof {
                reveal_strlit("Z");
            }
            "Z"
        },
        24 => {
            proof {
                reveal_strlit("2");
            }
            "2"
        },
        25 => {
            proof {
                reveal_strlit("3");
            }
            "3"
        },
        26 => {
            proof {
                reveal_strlit("4");
            }
            "4"
        },
        27 => {
            proof {
                reveal_strlit("5");
            }
            "5"
        },
        28 => {
            proof {
                reveal_strlit("6");
            }
            "6"
        },
        29 => {
            proof {
                reveal_strlit("7");
            }
            "7"
        },
        30 => {
            proof {
                reveal_strlit("8");
            }
            "8"
        },
        _ => {
            proof {
                reveal_strlit("9");
            }
            "9"
        },
    }
}

/// The six-character room code generated from `seed` mixed with
/// `extra_hash` (their wrapping sum seeds the generator).
pub fn room_code_from_seed(seed: u64, extra_hash: u64) -> (code: String)
    ensures
        code@ == room_code_for(seed.wrapping_add(extra_hash)),
{
    let s0 = seed.wrapping_add(extra_hash);
    let mut s = s0;
    let mut code = String::new();
    let mut k: usize = 0;
    while k < ROOM_CODE_LEN
        invariant
            k <= ROOM_CODE_LEN,
            s == lcg_state(s0, k as nat),
            code@ == Seq::new(k as nat, |j: int| code_alphabet()[code_index(lcg_state(s0, (j + 1) as nat))]),
        decreases ROOM_CODE_LEN - k,
    {
        s = s.wrapping_mul(6364136223846793005).wrapping_add(1442695040888963407);
        let idx = (s >> 33u64) % 32;
        code.append(code_char(idx));
        proof {
            assert(code@ =~= Seq::new((k + 1) as nat, |j: int| code_alphabet()[code_index(lcg_state(s0, (j + 1) as nat))]));
        }
        k = k + 1;
    }
    code
}

/// Every generated room code has `ROOM_CODE_LEN` characters, all from the
/// code alphabet.
pub proof fn lemma_room_code_shape(s0: u64)
    ensures
        room_code_for(s0).len() == ROOM_CODE_LEN,
        forall|k: int| 0 <= k < ROOM_CODE_LEN ==> code_alphabet().contains(#[trigger] room_code_for(s0)[k]),
{
    assert forall|k: int| 0 <= k < ROOM_CODE_LEN implies code_alphabet().contains(#[trigger] room_code_for(s0)[k]) by {
        let i = code_index(lcg_state(s0, (k + 1) as nat));
        assert(0 <= i < 32);
        assert(code_alphabet()[i] == room_code_for(s0)[k]);
    }
}

} // verus!
