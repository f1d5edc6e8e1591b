//! Encoding of outbound frames.

use vstd::prelude::*;
use crate::ws::frame::apply_mask;
use crate::ws::frame::big_endian;
use crate::ws::frame::frame_bytes;
use crate::ws::frame::masked_length_field;
use crate::ws::frame::Message;
use crate::ws::outside::random_bytes;

verus! {

/// The payload a message body stands for: an absent body is an empty payload.
pub open spec fn body_bytes(body: Option<&[u8]>) -> Seq<u8> {
    match body {
        Some(bytes) => bytes@,
        None => Seq::<u8>::empty(),
    }
}

/// The message that the arguments of a send stand for.
pub open spec fn outbound_message(fin: bool, op: u8, body: Option<&[u8]>) -> Message {
    Message {
        fin,
        op,
        body: match body {
            Some(bytes) => Some(bytes@),
            None => None,
        },
    }
}

/// Appends the low `width` bytes of `value` to `out`, most significant first.
fn put_big_endian(out: &mut Vec<u8>, value: u64, width: usize)
    ensures
        final(out)@ == old(out)@ + big_endian(value as nat, width as nat),
    decreases width,
{
    if width > 0 {
        put_big_endian(out, value / 256, (width - 1) as usize);
        out.push((value % 256) as u8);
        assert(out@ =~= old(out)@ + big_endian(value as nat, width as nat));
    } else {
        assert(out@ =~= old(out)@ + big_endian(value as nat, width as nat));
    }
}

/// Appends `payload`, XOR-ed with `key`, to `out`.
fn put_masked(out: &mut Vec<u8>, payload: &[u8], key: &[u8; 4])
    ensures
        final(out)@ == old(out)@ + apply_mask(payload@, key@),
{
    let mut i: usize = 0;
    while i < payload.len()
        invariant
            i <= payload.len(),
            out@ == old(out)@ + apply_mask(payload@.take(i as int), key@),
        decreases payload.len() - i,
    {
        let ghost before = out@;
        out.push(payload[i] ^ key[i % 4]);
        proof {
            let shorter = apply_mask(payload@.take(i as int), key@);
            let longer = apply_mask(payload@.take(i + 1), key@);
            assert(longer =~= shorter.push(payload@[i as int] ^ key@[(i % 4) as int]));
            assert(out@ =~= old(out)@ + longer);
        }
        i += 1;
    }
    assert(payload@.take(i as int) =~= payload@);
}

/// Appends one masked frame to `out`.
///
/// The payload length goes into the narrowest of the three length
/// encodings; only the low four bits of `op` are used.
pub fn encode_frame(out: &mut Vec<u8>, fin: bool, op: u8, body: Option<&[u8]>, key: &[u8; 4])
    ensures
        final(out)@ == old(out)@ + frame_bytes(fin, op, body_bytes(body), key@),
{
    let empty: [u8; 0] = [];
    let payload: &[u8] = match body {
        Some(bytes) => bytes,
        None => empty.as_slice(),
    };
    assert(payload@ =~= body_bytes(body));
    let len = payload.len();
    let fin_bit: u8 = if fin {
        128
    } else {
        0
    };
    out.push(fin_bit + op % 16);
    let ghost after_first = out@;
    if len <= 125 {
        out.push((128 + len) as u8);
    } else if len <= 65535 {
        out.push(254);
        put_big_endian(out, len as u64, 2);
    } else {
        out.push(255);
        put_big_endian(out, len as u64, 8);
    }
    assert(out@ =~= after_first + masked_length_field(len as nat));
    let ghost after_length = out@;
    out.extend_from_slice(key.as_slice());
    assert(out@ =~= after_length + key@);
    put_masked(out, payload, key);
    assert(out@ =~= old(out)@ + frame_bytes(fin, op, payload@, key@));
}

/// Appends one frame to `out`, masked with a key drawn fresh for it.
pub fn send(out: &mut Vec<u8>, fin: bool, op: u8, body: Option<&[u8]>)
    ensures
        exists|key: Seq<u8>|
            key.len() == 4 && final(out)@ == old(out)@ + #[trigger] frame_bytes(
                fin,
                op,
                body_bytes(body),
                key,
            ),
{
    let key = random_bytes::<4>();
    encode_frame(out, fin, op, body, &key);
    assert(key@.len() == 4 && out@ == old(out)@ + frame_bytes(fin, op, body_bytes(body), key@));
}

} // verus!
