//! Decoding of inbound frames from the bytes a connection has buffered.

use vstd::prelude::*;
use crate::buffer::ReadBuffer;
use crate::error::ProtocolError;
use crate::ws::frame::apply_mask;
use crate::ws::frame::decode;
use crate::ws::frame::extended_length_width;
use crate::ws::frame::from_big_endian;
use crate::ws::frame::header_is_invalid;
use crate::ws::frame::radix_power;
use crate::ws::frame::Decoded;
use crate::ws::frame::WebsocketFrame;
use crate::ws::frame::MAX_CONTROL_PAYLOAD;
use crate::ws::frame::OP_CLOSE;
use crate::ws::frame::OP_PING;
use crate::ws::frame::OP_PONG;

verus! {

/// A number spelt by `bytes` is below `256` to the power of their count.
pub proof fn lemma_from_big_endian_bound(bytes: Seq<u8>)
    ensures
        from_big_endian(bytes) < radix_power(bytes.len()),
    decreases bytes.len(),
{
    if bytes.len() > 0 {
        lemma_from_big_endian_bound(bytes.drop_last());
    }
}

/// Reads the number that `width` bytes of `bytes`, starting at `at`, spell
/// in big-endian order.
fn read_big_endian(bytes: &[u8], at: usize, width: usize) -> (value: u64)
    requires
        width <= 8,
        at + width <= bytes.len(),
    ensures
        value == from_big_endian(bytes@.subrange(at as int, at + width)),
{
    let mut value: u64 = 0;
    let mut i: usize = 0;
    while i < width
        invariant
            i <= width <= 8,
            at + width <= bytes.len(),
            value == from_big_endian(bytes@.subrange(at as int, at + i)),
        decreases width - i,
    {
        proof {
            let read = bytes@.subrange(at as int, at + i);
            let next = bytes@.subrange(at as int, at + i + 1);
            lemma_from_big_endian_bound(read);
            assert(next.drop_last() =~= read);
            assert(next.last() == bytes@[at + i]);
            assert(radix_power(i as nat) <= radix_power(7) && radix_power(8)
                == 0x1_0000_0000_0000_0000) by {
                reveal_with_fuel(radix_power, 9);
            }
        }
        value = value * 256 + bytes[at + i] as u64;
        i += 1;
    }
    value
}

/// Copies `count` bytes of `bytes`, starting at `at`, XOR-ing them with the
/// four key bytes at `key_at` when `masked` is set.
fn copy_payload(bytes: &[u8], at: usize, count: usize, masked: bool, key_at: usize) -> (payload:
    Vec<u8>)
    requires
        at + count <= bytes.len(),
        masked ==> key_at + 4 <= bytes.len(),
    ensures
        payload@ == if masked {
            apply_mask(
                bytes@.subrange(at as int, at + count),
                bytes@.subrange(key_at as int, key_at + 4),
            )
        } else {
            bytes@.subrange(at as int, at + count)
        },
{
    let mut payload: Vec<u8> = Vec::with_capacity(count);
    let mut i: usize = 0;
    while i < count
        invariant
            i <= count,
            at + count <= bytes.len(),
            masked ==> key_at + 4 <= bytes.len(),
            payload@.len() == i,
            forall|j: int|
                0 <= j < i ==> payload@[j] == if masked {
                    bytes@[at + j] ^ bytes@[key_at + j % 4]
                } else {
                    bytes@[at + j]
                },
        decreases count - i,
    {
        let byte = if masked {
            bytes[at + i] ^ bytes[key_at + i % 4]
        } else {
            bytes[at + i]
        };
        payload.push(byte);
        i += 1;
    }
    proof {
        let raw = bytes@.subrange(at as int, at + count);
        if masked {
            assert(payload@ =~= apply_mask(raw, bytes@.subrange(key_at as int, key_at + 4)));
        } else {
            assert(payload@ =~= raw);
        }
    }
    payload
}

/// Decodes the frame at the start of `bytes`.
///
/// Returns the frame and the number of bytes it occupies, `None` while the
/// frame is not yet whole, and a protocol violation for a header that breaks
/// the framing rules.
pub fn parse_frame(bytes: &[u8]) -> (result: Result<Option<(WebsocketFrame, usize)>, ProtocolError>)
    ensures
        match decode(bytes@) {
            Decoded::Incomplete => result == Ok::<Option<(WebsocketFrame, usize)>, ProtocolError>(
                None,
            ),
            Decoded::Invalid => result == Err::<Option<(WebsocketFrame, usize)>, ProtocolError>(
                ProtocolError::ProtocolViolation,
            ),
            Decoded::Frame(frame, used) => match result {
                Ok(Some((f, n))) => f@ == frame && n == used,
                _ => false,
            },
        },
{
    let available = bytes.len();
    if available < 2 {
        return Ok(None);
    }
    let b0 = bytes[0];
    let b1 = bytes[1];
    let fin = b0 >= 128;
    let reserved = (b0 / 16) % 8;
    let op = b0 % 16;
    let masked = b1 >= 128;
    let short_length = b1 % 128;
    let control = op == OP_CLOSE || op == OP_PING || op == OP_PONG;
    if reserved != 0 {
        return Err(ProtocolError::ProtocolViolation);
    }
    if control && (!fin || short_length as usize > MAX_CONTROL_PAYLOAD) {
        return Err(ProtocolError::ProtocolViolation);
    }
    let width: usize = if short_length == 126 {
        2
    } else if short_length == 127 {
        8
    } else {
        0
    };
    let key_at: usize = 2 + width;
    let body_at: usize = if masked {
        key_at + 4
    } else {
        key_at
    };
    if op != 0 && op != 1 && op != 2 && !control {
        return Err(ProtocolError::ProtocolViolation);
    }
    assert(!header_is_invalid(b0, b1));
    assert(width == extended_length_width(b1));
    if available < body_at {
        return Ok(None);
    }
    let length: u64 = if width == 0 {
        short_length as u64
    } else {
        read_big_endian(bytes, 2, width)
    };
    if length > (available - body_at) as u64 {
        return Ok(None);
    }
    let count = length as usize;
    let payload = copy_payload(bytes, body_at, count, masked, key_at);
    match WebsocketFrame::from_parts(fin, op, payload) {
        Some(frame) => Ok(Some((frame, body_at + count))),
        None => Err(ProtocolError::ProtocolViolation),
    }
}

/// Takes the next whole frame out of `buffer`.
///
/// While the frame at the head of the buffer is incomplete, and when its
/// header is invalid, no byte is consumed.
pub fn decode_next(buffer: &mut ReadBuffer) -> (result: Result<
    Option<WebsocketFrame>,
    ProtocolError,
>)
    ensures
        final(buffer).limit() == old(buffer).limit(),
        match decode(old(buffer).contents()) {
            Decoded::Incomplete => {
                &&& result == Ok::<Option<WebsocketFrame>, ProtocolError>(None)
                &&& final(buffer).contents() == old(buffer).contents()
            },
            Decoded::Invalid => {
                &&& result == Err::<Option<WebsocketFrame>, ProtocolError>(
                    ProtocolError::ProtocolViolation,
                )
                &&& final(buffer).contents() == old(buffer).contents()
            },
            Decoded::Frame(frame, used) => {
                &&& result matches Ok(Some(f)) && f@ == frame
                &&& final(buffer).contents() == old(buffer).contents().skip(used as int)
            },
        },
{
    let parsed = parse_frame(buffer.view());
    match parsed {
        Ok(Some((frame, used))) => {
            buffer.consume(used);
            Ok(Some(frame))
        },
        Ok(None) => Ok(None),
        Err(e) => Err(e),
    }
}

} // verus!
