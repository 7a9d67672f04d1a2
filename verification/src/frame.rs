//! IPC framing: every message travels as a 4-byte little-endian length
//! prefix followed by its payload bytes.
use vstd::prelude::*;

verus! {

/// Largest payload, in bytes, that the daemon accepts in one frame (1 MiB).
pub const MAX_FRAME_LEN: usize = 1_048_576;

/// Number of bytes in the length prefix of a frame.
pub const HEADER_LEN: usize = 4;

/// The unsigned integer that four bytes denote in little-endian order.
pub open spec fn le_u32_value(b: Seq<u8>) -> int
    recommends
        b.len() == 4,
{
    b[0] + 256 * b[1] + 65536 * b[2] + 16777216 * b[3]
}

/// The four little-endian bytes of `n`.
pub open spec fn le_u32_bytes(n: u32) -> Seq<u8> {
    seq![
        (n % 256) as u8,
        ((n / 256) % 256) as u8,
        ((n / 65536) % 256) as u8,
        ((n / 16777216) % 256) as u8,
    ]
}

/// The length that a frame header records for a payload of `len` bytes:
/// the length reduced modulo 2^32, as the 32-bit prefix cannot hold more.
pub open spec fn recorded_len(len: nat) -> u32 {
    (len % 0x1_0000_0000) as u32
}

/// The frame that carries `payload`: its length prefix, then the payload.
pub open spec fn frame_of(payload: Seq<u8>) -> Seq<u8> {
    le_u32_bytes(recorded_len(payload.len())) + payload
}

/// Reads the payload length from the 4-byte little-endian frame header.
pub fn parse_frame_len(header: &[u8; 4]) -> (len: u32)
    ensures
        len == le_u32_value(header@),
{
    let b0: u32 = header[0] as u32;
    let b1: u32 = header[1] as u32;
    let b2: u32 = header[2] as u32;
    let b3: u32 = header[3] as u32;
    b0 + b1 * 256 + b2 * 65536 + b3 * 16777216
}

/// The four little-endian bytes of `n`.
pub fn u32_to_le_bytes(n: u32) -> (bytes: [u8; 4])
    ensures
        bytes@ == le_u32_bytes(n),
{
    let bytes = [
        (n % 256) as u8,
        ((n / 256) % 256) as u8,
        ((n / 65536) % 256) as u8,
        ((n / 16777216) % 256) as u8,
    ];
    assert(bytes@ =~= le_u32_bytes(n));
    bytes
}

/// Builds one IPC frame around an already serialised payload: the payload's
/// length as a 4-byte little-endian prefix, followed by the payload.
pub fn encode_frame(payload: &[u8]) -> (frame: Vec<u8>)
    ensures
        frame@ == frame_of(payload@),
{
    let len: u32 = (payload.len() as u64 % 0x1_0000_0000u64) as u32;
    let prefix = u32_to_le_bytes(len);
    let mut frame: Vec<u8> = Vec::new();
    frame.push(prefix[0]);
    frame.push(prefix[1]);
    frame.push(prefix[2]);
    frame.push(prefix[3]);
    let n: usize = payload.len();
    let mut i: usize = 0;
    while i < n
        invariant
            n == payload@.len(),
            0 <= i <= n,
            frame@ == le_u32_bytes(len) + payload@.take(i as int),
            len == recorded_len(payload@.len()),
        decreases n - i,
    {
        frame.push(payload[i]);
        assert(payload@.take(i + 1) =~= payload@.take(i as int).push(payload@[i as int]));
        i = i + 1;
    }
    assert(payload@.take(n as int) =~= payload@);
    frame
}

/// What the daemon does after reading a frame header.
pub enum HeaderAction {
    /// Read a payload of this many bytes next.
    ReadPayload(usize),
    /// The announced payload exceeds [`MAX_FRAME_LEN`]: close the connection.
    Close(u32),
}

/// Decides, from a frame header, whether the daemon reads the payload it
/// announces or closes the connection because the payload is too large.
pub fn check_frame_header(header: &[u8; 4]) -> (action: HeaderAction)
    ensures
        le_u32_value(header@) <= MAX_FRAME_LEN ==> action == HeaderAction::ReadPayload(
            le_u32_value(header@) as usize,
        ),
        le_u32_value(header@) > MAX_FRAME_LEN ==> action == HeaderAction::Close(
            le_u32_value(header@) as u32,
        ),
{
    let len: u32 = parse_frame_len(header);
    if len as u64 > MAX_FRAME_LEN as u64 {
        HeaderAction::Close(len)
    } else {
        HeaderAction::ReadPayload(len as usize)
    }
}

/// Decoding undoes encoding: the header of the frame built for a payload of
/// fewer than 2^32 bytes records exactly the payload's length, and the bytes
/// after the header are the payload itself.
pub proof fn lemma_frame_roundtrip(payload: Seq<u8>)
    requires
        payload.len() < 0x1_0000_0000,
    ensures
        frame_of(payload).len() == HEADER_LEN + payload.len(),
        le_u32_value(frame_of(payload).take(HEADER_LEN as int)) == payload.len(),
        frame_of(payload).skip(HEADER_LEN as int) == payload,
{
    let n: u32 = recorded_len(payload.len());
    assert(n == payload.len());
    lemma_le_u32_roundtrip(n);
    assert(frame_of(payload).take(4) =~= le_u32_bytes(n));
    assert(frame_of(payload).skip(4) =~= payload);
}

/// The daemon reads every frame the client encodes for a payload of at most
/// [`MAX_FRAME_LEN`] bytes, and reads exactly that payload; it closes the
/// connection on a frame whose payload is longer (and shorter than 2^32).
pub proof fn lemma_encoded_frame_admitted(payload: Seq<u8>)
    requires
        payload.len() < 0x1_0000_0000,
    ensures
        payload.len() <= MAX_FRAME_LEN ==> le_u32_value(frame_of(payload).take(HEADER_LEN as int))
            <= MAX_FRAME_LEN && le_u32_value(frame_of(payload).take(HEADER_LEN as int))
            == payload.len(),
        payload.len() > MAX_FRAME_LEN ==> le_u32_value(frame_of(payload).take(HEADER_LEN as int))
            > MAX_FRAME_LEN,
{
    lemma_frame_roundtrip(payload);
}

/// Encoding a 32-bit length and reading it back gives the same length.
pub proof fn lemma_le_u32_roundtrip(n: u32)
    ensures
        le_u32_bytes(n).len() == 4,
        le_u32_value(le_u32_bytes(n)) == n,
{
    let b = le_u32_bytes(n);
    assert(b[0] == n % 256);
    assert(b[1] == (n / 256) % 256);
    assert(b[2] == (n / 65536) % 256);
    assert(b[3] == (n / 16777216) % 256);
    assert(n % 256 + 256 * ((n / 256) % 256) + 65536 * ((n / 65536) % 256) + 16777216 * ((n
        / 16777216) % 256) == n) by (nonlinear_arith);
}

/// Reading four bytes as a length and encoding that length again gives the
/// same four bytes.
pub proof fn lemma_le_bytes_roundtrip(b: Seq<u8>)
    requires
        b.len() == 4,
    ensures
        le_u32_value(b) <= u32::MAX,
        le_u32_bytes(le_u32_value(b) as u32) == b,
{
    let v: int = le_u32_value(b);
    let (b0, b1, b2, b3): (int, int, int, int) = (b[0] as int, b[1] as int, b[2] as int, b[3] as int);
    assert(0 <= b0 < 256 && 0 <= b1 < 256 && 0 <= b2 < 256 && 0 <= b3 < 256);
    assert(v % 256 == b0 && (v / 256) % 256 == b1 && (v / 65536) % 256 == b2 && (v / 16777216)
        % 256 == b3 && v <= u32::MAX) by (nonlinear_arith)
        requires
            v == b0 + 256 * b1 + 65536 * b2 + 16777216 * b3,
            0 <= b0 < 256,
            0 <= b1 < 256,
            0 <= b2 < 256,
            0 <= b3 < 256,
    ;
    assert(le_u32_bytes(v as u32) =~= b);
}

} // verus!
