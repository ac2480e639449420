//! The wire format between caster and receiver: a four-byte big-endian
//! length, then that many bytes of payload.

use vstd::prelude::*;
use crate::endian::{be_bytes_u32, u32_from_be, read_be_u32, write_be_u32, lemma_u32_be_round_trip};

verus! {

/// The TCP port of the caster.
pub const PORT: u16 = 8080;

/// The address on which the caster listens.
pub const LISTEN_ADDRESS: &'static str = "0.0.0.0:8080";

/// The number of bytes of a message's length prefix.
pub const LENGTH_PREFIX: usize = 4;

/// The payload byte by which the caster announces that the stream ends.
pub const CLOSE_SENTINEL: u8 = 0;

/// The message that carries `payload`.
pub open spec fn message_spec(payload: Seq<u8>) -> Seq<u8> {
    be_bytes_u32(payload.len() as u32) + payload
}

/// The first message of a byte stream and how many bytes it takes up;
/// `None` while the stream does not hold a whole message yet.
pub open spec fn first_message(stream: Seq<u8>) -> Option<(Seq<u8>, int)> {
    if stream.len() < 4 {
        None
    } else {
        let length = u32_from_be(stream.subrange(0, 4)) as int;
        if stream.len() - 4 < length {
            None
        } else {
            Some((stream.subrange(4, 4 + length), 4 + length))
        }
    }
}

/// Whether a payload is the close sentinel: the single byte zero.
pub open spec fn is_close_spec(payload: Seq<u8>) -> bool {
    payload.len() == 1 && payload[0] == CLOSE_SENTINEL
}

/// Puts the length prefix before `payload`. `None` if and only if the
/// payload is too long for a 32-bit length.
pub fn frame_message(payload: &[u8]) -> (message: Option<Vec<u8>>)
    ensures
        message is Some <==> payload@.len() <= u32::MAX,
        message matches Some(m) ==> m@ == message_spec(payload@),
{
    let n: usize = payload.len();
    if n > u32::MAX as usize {
        return None;
    }
    let mut message: Vec<u8> = write_be_u32(n as u32);
    message.extend_from_slice(payload);
    Some(message)
}

/// The payload length that a length prefix announces; `None` unless
/// `prefix` has exactly four bytes.
pub fn message_length(prefix: &[u8]) -> (length: Option<u32>)
    ensures
        length is Some <==> prefix@.len() == 4,
        length matches Some(n) ==> n == u32_from_be(prefix@),
{
    read_be_u32(prefix)
}

/// Whether `payload` is the close sentinel.
pub fn is_close_sentinel(payload: &[u8]) -> (b: bool)
    ensures
        b == is_close_spec(payload@),
{
    payload.len() == 1 && payload[0] == CLOSE_SENTINEL
}

/// A stream that starts with the message of `payload` yields that payload
/// first, whatever follows.
pub proof fn lemma_first_message(payload: Seq<u8>, rest: Seq<u8>)
    requires
        payload.len() <= u32::MAX,
    ensures
        first_message(message_spec(payload) + rest) == Some((payload, 4 + payload.len() as int)),
{
    let stream = message_spec(payload) + rest;
    lemma_u32_be_round_trip(payload.len() as u32);
    assert(stream.subrange(0, 4) =~= be_bytes_u32(payload.len() as u32));
    assert(stream.subrange(4, 4 + payload.len() as int) =~= payload);
}

} // verus!
