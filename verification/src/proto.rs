//! Wire protocol between the tunnel server and the tunnel client.
//!
//! Control traffic consists of fixed-size frames of three bytes, a tag and a
//! stream id in big-endian order, so that neither side ever needs a length
//! prefix:
//!
//! ```text
//! [ TAG: 1 byte ][ STREAM_ID: 2 bytes, big-endian ]
//! ```
//!
//! A session opens with one message of four bytes from the server, which holds
//! the public port and the data port, both big-endian.
use vstd::prelude::*;

verus! {

/// Server to client: keepalive request.
pub const TAG_PING: u8 = 0x01;

/// Client to server: keepalive reply.
pub const TAG_PONG: u8 = 0x02;

/// Server to client: a visitor connected, open a data channel for this stream.
pub const TAG_OPEN: u8 = 0x03;

/// Either direction: this stream is done.
pub const TAG_CLOSE: u8 = 0x04;

/// Reserved for announcing a data port.
pub const TAG_DATA_PORT: u8 = 0x05;

/// Number of bytes in a control frame.
pub const FRAME_LEN: usize = 3;

/// Number of bytes in the message that opens a session.
pub const HANDSHAKE_LEN: usize = 4;

/// The number that two bytes stand for, the more significant one first.
pub open spec fn big_endian(hi: u8, lo: u8) -> int {
    hi * 256 + lo
}

/// Splits a number into its two bytes, the more significant one first.
pub fn to_big_endian(n: u16) -> (bytes: (u8, u8))
    ensures
        big_endian(bytes.0, bytes.1) == n,
{
    let hi: u8 = (n / 256) as u8;
    let lo: u8 = (n % 256) as u8;
    (hi, lo)
}

/// Joins two bytes into the number that they stand for.
pub fn from_big_endian(hi: u8, lo: u8) -> (n: u16)
    ensures
        n == big_endian(hi, lo),
{
    hi as u16 * 256 + lo as u16
}

/// Two byte pairs that stand for the same number are the same pair.
pub proof fn big_endian_is_injective(hi1: u8, lo1: u8, hi2: u8, lo2: u8)
    requires
        big_endian(hi1, lo1) == big_endian(hi2, lo2),
    ensures
        hi1 == hi2,
        lo1 == lo2,
{
}

/// A control frame as a tag and a stream id.
pub open spec fn frame_of(bytes: Seq<u8>) -> (u8, int) {
    (bytes[0], big_endian(bytes[1], bytes[2]))
}

/// Builds the frame for a tag and a stream id.
pub fn encode(tag: u8, stream_id: u16) -> (frame: [u8; FRAME_LEN])
    ensures
        frame_of(frame@) == (tag, stream_id as int),
{
    let (hi, lo) = to_big_endian(stream_id);
    [tag, hi, lo]
}

/// Reads the tag and the stream id of a frame.
pub fn decode(buf: &[u8; FRAME_LEN]) -> (frame: (u8, u16))
    ensures
        (frame.0, frame.1 as int) == frame_of(buf@),
{
    (buf[0], from_big_endian(buf[1], buf[2]))
}

/// The public port and the data port that the opening message of a session holds.
pub open spec fn handshake_of(bytes: Seq<u8>) -> (int, int) {
    (big_endian(bytes[0], bytes[1]), big_endian(bytes[2], bytes[3]))
}

/// Builds the opening message of a session.
pub fn encode_handshake(public_port: u16, data_port: u16) -> (bytes: [u8; HANDSHAKE_LEN])
    ensures
        handshake_of(bytes@) == (public_port as int, data_port as int),
{
    let (public_hi, public_lo) = to_big_endian(public_port);
    let (data_hi, data_lo) = to_big_endian(data_port);
    [public_hi, public_lo, data_hi, data_lo]
}

/// Reads the opening message of a session.
pub fn decode_handshake(buf: &[u8; HANDSHAKE_LEN]) -> (ports: (u16, u16))
    ensures
        (ports.0 as int, ports.1 as int) == handshake_of(buf@),
{
    (from_big_endian(buf[0], buf[1]), from_big_endian(buf[2], buf[3]))
}

// ── laws ────────────────────────────────────────────────────────────────────
/// What is read from a frame is what it was built from: a frame of [`encode`] for a
/// tag and a stream id gives [`decode`] just these.
pub proof fn frames_read_back(tag: u8, stream_id: u16, frame: Seq<u8>, read: (u8, u16))
    requires
        frame_of(frame) == (tag, stream_id as int),
        (read.0, read.1 as int) == frame_of(frame),
    ensures
        read == (tag, stream_id),
{
}

/// A frame is determined by its tag and its stream id: building one from what was
/// read gives the same bytes.
pub proof fn frames_are_determined(a: Seq<u8>, b: Seq<u8>)
    requires
        a.len() == FRAME_LEN,
        b.len() == FRAME_LEN,
        frame_of(a) == frame_of(b),
    ensures
        a == b,
{
    big_endian_is_injective(a[1], a[2], b[1], b[2]);
    assert(a =~= b);
}

/// An opening message is determined by its two ports.
pub proof fn handshakes_are_determined(a: Seq<u8>, b: Seq<u8>)
    requires
        a.len() == HANDSHAKE_LEN,
        b.len() == HANDSHAKE_LEN,
        handshake_of(a) == handshake_of(b),
    ensures
        a == b,
{
    big_endian_is_injective(a[0], a[1], b[0], b[1]);
    big_endian_is_injective(a[2], a[3], b[2], b[3]);
    assert(a =~= b);
}

} // verus!
