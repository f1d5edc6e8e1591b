//! Laws of the frame codec: what the decoder reads back from the encoder's
//! output, and what it refuses.

use vstd::arithmetic::div_mod::lemma_mod_breakdown;
use vstd::arithmetic::div_mod::lemma_small_mod;
use vstd::prelude::*;
use crate::ws::frame::application_frames;
use crate::ws::frame::apply_mask;
use crate::ws::frame::are_mask_keys;
use crate::ws::frame::big_endian;
use crate::ws::frame::decode;
use crate::ws::frame::first_byte;
use crate::ws::frame::frame_bytes;
use crate::ws::frame::from_big_endian;
use crate::ws::frame::header_length;
use crate::ws::frame::header_opcode;
use crate::ws::frame::intake;
use crate::ws::frame::is_control_opcode;
use crate::ws::frame::masked_length_field;
use crate::ws::frame::pong_for;
use crate::ws::frame::pong_replies;
use crate::ws::frame::radix_power;
use crate::ws::frame::stream_bytes;
use crate::ws::frame::Decoded;
use crate::ws::frame::FrameView;
use crate::ws::frame::Intake;
use crate::ws::frame::Message;
use crate::ws::frame::MAX_CONTROL_PAYLOAD;
use crate::ws::frame::OP_CLOSE;
use crate::ws::frame::OP_PING;

verus! {

/// XOR-ing a byte twice with the same key byte gives the byte back.
proof fn lemma_xor_twice(byte: u8, key: u8)
    ensures
        (byte ^ key) ^ key == byte,
{
    assert((byte ^ key) ^ key == byte) by (bit_vector);
}

/// Masking is its own inverse: applying the same 4-byte key twice returns
/// the payload, whatever the key.
pub proof fn lemma_mask_involution(payload: Seq<u8>, key: Seq<u8>)
    requires
        key.len() == 4,
    ensures
        apply_mask(apply_mask(payload, key), key) == payload,
{
    let once = apply_mask(payload, key);
    let twice = apply_mask(once, key);
    assert forall|i: int| 0 <= i < payload.len() implies twice[i] == payload[i] by {
        lemma_xor_twice(payload[i], key[i % 4]);
    }
    assert(twice =~= payload);
}

/// `width` big-endian bytes hold a value up to `256^width - 1` exactly.
pub proof fn lemma_big_endian_roundtrip(value: nat, width: nat)
    ensures
        big_endian(value, width).len() == width,
        from_big_endian(big_endian(value, width)) == value % radix_power(width),
    decreases width,
{
    if width > 0 {
        let higher = big_endian(value / 256, (width - 1) as nat);
        lemma_big_endian_roundtrip(value / 256, (width - 1) as nat);
        let all = higher.push((value % 256) as u8);
        assert(all.drop_last() =~= higher);
        assert(all.last() == (value % 256) as u8);
        let p = radix_power((width - 1) as nat);
        lemma_radix_power_positive((width - 1) as nat);
        lemma_mod_breakdown(value as int, 256, p as int);
    }
}

/// Every power of 256 is positive.
pub proof fn lemma_radix_power_positive(width: nat)
    ensures
        radix_power(width) > 0,
    decreases width,
{
    if width > 0 {
        lemma_radix_power_positive((width - 1) as nat);
    }
}

/// Encoding a valid frame and decoding the produced bytes gives the frame
/// back: the same fin flag, opcode and payload, for every payload length,
/// every mask key and whatever bytes follow the frame.
pub proof fn lemma_decode_inverts_encode(
    fin: bool,
    op: u8,
    payload: Seq<u8>,
    key: Seq<u8>,
    rest: Seq<u8>,
)
    requires
        key.len() == 4,
        (FrameView { fin, op, payload }).is_valid(),
    ensures
        decode(frame_bytes(fin, op, payload, key) + rest) == Decoded::Frame(
            FrameView { fin, op, payload },
            frame_bytes(fin, op, payload, key).len(),
        ),
{
    let len = payload.len();
    let field = masked_length_field(len);
    let frame = frame_bytes(fin, op, payload, key);
    let bytes = frame + rest;
    let width: nat = if len <= 125 {
        0
    } else if len <= 65535 {
        2
    } else {
        8
    };
    lemma_big_endian_roundtrip(len, 2);
    lemma_big_endian_roundtrip(len, 8);
    reveal_with_fuel(radix_power, 9);
    assert(field.len() == 1 + width);
    assert(frame.len() == 1 + field.len() + 4 + len);
    assert(bytes[0] == first_byte(fin, op));
    assert(bytes[1] == field[0]);
    let key_at = 2 + width;
    let body_at = key_at + 4;
    assert(bytes.subrange(key_at as int, body_at as int) =~= key);
    assert(bytes.subrange(body_at as int, (body_at + len) as int) =~= apply_mask(payload, key));
    if width > 0 {
        assert(bytes.subrange(2, key_at as int) =~= big_endian(len, width));
        lemma_small_mod(len, radix_power(width));
    }
    lemma_mask_involution(payload, key);
}

/// Sending two runs of messages one after the other puts the same bytes on
/// the wire as sending them as one run.
pub proof fn lemma_stream_bytes_concat(
    first: Seq<Message>,
    first_keys: Seq<Seq<u8>>,
    second: Seq<Message>,
    second_keys: Seq<Seq<u8>>,
)
    requires
        first_keys.len() == first.len(),
        second_keys.len() == second.len(),
    ensures
        stream_bytes(first + second, first_keys + second_keys) == stream_bytes(first, first_keys)
            + stream_bytes(second, second_keys),
    decreases second.len(),
{
    if second.len() == 0 {
        assert(first + second =~= first);
        assert(first_keys + second_keys =~= first_keys);
        assert(stream_bytes(first, first_keys) + stream_bytes(second, second_keys) =~= stream_bytes(
            first,
            first_keys,
        ));
    } else {
        lemma_stream_bytes_concat(first, first_keys, second.drop_last(), second_keys.drop_last());
        assert((first + second).drop_last() =~= first + second.drop_last());
        assert((first_keys + second_keys).drop_last() =~= first_keys + second_keys.drop_last());
        assert((first + second).last() == second.last());
        assert((first_keys + second_keys).last() == second_keys.last());
        assert(stream_bytes(first + second, first_keys + second_keys) =~= stream_bytes(
            first,
            first_keys,
        ) + stream_bytes(second, second_keys));
    }
}

/// The views of the messages in `messages` as frames, in order.
pub open spec fn message_frames(messages: Seq<Message>) -> Seq<FrameView> {
    messages.map_values(|message: Message| message.frame())
}

/// A run of valid messages, none of them a close, is read back from the
/// wire as the same frames in the same order, with no byte left over,
/// whatever keys masked them.
pub proof fn lemma_stream_is_taken_in_order(messages: Seq<Message>, keys: Seq<Seq<u8>>)
    requires
        are_mask_keys(keys, messages.len()),
        forall|i: int|
            0 <= i < messages.len() ==> (#[trigger] messages[i]).frame().is_valid()
                && messages[i].op != OP_CLOSE,
    ensures
        intake(stream_bytes(messages, keys)) == (Intake {
            frames: message_frames(messages),
            consumed: stream_bytes(messages, keys).len(),
            invalid: false,
        }),
    decreases messages.len(),
{
    let stream = stream_bytes(messages, keys);
    if messages.len() == 0 {
        assert(message_frames(messages) =~= Seq::<FrameView>::empty());
    } else {
        let first = messages[0];
        let key = keys[0];
        let later = messages.skip(1);
        let later_keys = keys.skip(1);
        let frame = frame_bytes(first.fin, first.op, first.payload(), key);
        assert(messages =~= seq![first] + later);
        assert(keys =~= seq![key] + later_keys);
        lemma_stream_bytes_concat(seq![first], seq![key], later, later_keys);
        assert(seq![first].drop_last() =~= Seq::<Message>::empty());
        assert(seq![first].last() == first);
        assert(seq![key].last() == key);
        assert(stream_bytes(seq![first].drop_last(), seq![key].drop_last()) =~= Seq::<u8>::empty());
        assert(stream_bytes(seq![first], seq![key]) =~= frame);
        let rest = stream_bytes(later, later_keys);
        assert(stream == frame + rest);
        lemma_decode_inverts_encode(first.fin, first.op, first.payload(), key, rest);
        assert(stream.skip(frame.len() as int) =~= rest);
        lemma_stream_is_taken_in_order(later, later_keys);
        assert(message_frames(messages) =~= seq![first.frame()] + message_frames(later));
    }
}

/// A control frame that announces more than 125 payload bytes is a protocol
/// violation as soon as its two header bytes are there, and no frame and no
/// byte is taken from the stream.
pub proof fn lemma_oversized_control_frame_is_rejected(bytes: Seq<u8>)
    requires
        bytes.len() >= 2,
        is_control_opcode(header_opcode(bytes[0])),
        header_length(bytes[1]) > MAX_CONTROL_PAYLOAD,
    ensures
        decode(bytes) == Decoded::Invalid,
        intake(bytes) == (Intake { frames: Seq::empty(), consumed: 0, invalid: true }),
{
}

/// A ping between other frames is answered by exactly one pong with the
/// ping's payload, in its place among the replies, and is not among the
/// frames the application sees.
pub proof fn lemma_ping_is_answered_once(
    before: Seq<FrameView>,
    ping: FrameView,
    after: Seq<FrameView>,
)
    requires
        ping.op == OP_PING,
    ensures
        application_frames(before + seq![ping] + after) == application_frames(before)
            + application_frames(after),
        pong_replies(before + seq![ping] + after) == pong_replies(before) + seq![pong_for(ping)]
            + pong_replies(after),
        pong_for(ping).payload() == ping.payload,
{
    let visible = |frame: FrameView| frame.op != OP_PING && frame.op != OP_CLOSE;
    let is_ping = |frame: FrameView| frame.op == OP_PING;
    Seq::filter_distributes_over_add(before + seq![ping], after, visible);
    Seq::filter_distributes_over_add(before, seq![ping], visible);
    Seq::filter_distributes_over_add(before + seq![ping], after, is_ping);
    Seq::filter_distributes_over_add(before, seq![ping], is_ping);
    reveal_with_fuel(Seq::filter, 2);
    assert(seq![ping].drop_last() =~= Seq::<FrameView>::empty());
    assert(seq![ping].filter(visible) =~= Seq::<FrameView>::empty());
    assert(seq![ping].filter(is_ping) =~= seq![ping]);
    assert(application_frames(before + seq![ping] + after) =~= application_frames(before)
        + application_frames(after));
    assert(pong_replies(before + seq![ping] + after) =~= pong_replies(before) + seq![
        pong_for(ping),
    ] + pong_replies(after));
}

} // verus!
