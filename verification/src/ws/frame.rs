//! Websocket frames as they stand on the wire, and their mathematical model.
//!
//! A frame is one header byte (fin bit, three reserved bits, opcode), one
//! byte with the mask bit and a 7-bit length or length marker, an optional
//! big-endian extended length of two or eight bytes, an optional 4-byte mask
//! key and the payload, which is XOR-ed with the key when one is present.

use vstd::prelude::*;

verus! {

/// Opcode of a continuation fragment.
pub const OP_CONTINUATION: u8 = 0;

/// Opcode of a text frame.
pub const OP_TEXT: u8 = 1;

/// Opcode of a binary frame.
pub const OP_BINARY: u8 = 2;

/// Opcode of a close frame.
pub const OP_CLOSE: u8 = 8;

/// Opcode of a ping frame.
pub const OP_PING: u8 = 9;

/// Opcode of a pong frame.
pub const OP_PONG: u8 = 10;

/// The largest payload a control frame may carry.
pub const MAX_CONTROL_PAYLOAD: usize = 125;

/// Whether `op` is one of the six opcodes the protocol defines.
pub open spec fn is_known_opcode(op: u8) -> bool {
    op == OP_CONTINUATION || op == OP_TEXT || op == OP_BINARY || op == OP_CLOSE || op == OP_PING
        || op == OP_PONG
}

/// Whether `op` is the opcode of a control frame (close, ping, pong).
pub open spec fn is_control_opcode(op: u8) -> bool {
    op == OP_CLOSE || op == OP_PING || op == OP_PONG
}

/// A frame as a value: its fin flag, its opcode and its unmasked payload.
pub struct FrameView {
    pub fin: bool,
    pub op: u8,
    pub payload: Seq<u8>,
}

impl FrameView {
    /// A frame the protocol allows: a known opcode, a payload length that
    /// fits the 64-bit length field and, for control frames, no
    /// fragmentation and at most 125 payload bytes.
    pub open spec fn is_valid(self) -> bool {
        &&& is_known_opcode(self.op)
        &&& self.payload.len() <= u64::MAX
        &&& is_control_opcode(self.op) ==> self.fin && self.payload.len() <= MAX_CONTROL_PAYLOAD
    }
}

/// `value` in `width` bytes, most significant byte first; higher bytes of
/// `value` are dropped.
pub open spec fn big_endian(value: nat, width: nat) -> Seq<u8>
    decreases width,
{
    if width == 0 {
        Seq::<u8>::empty()
    } else {
        big_endian(value / 256, (width - 1) as nat).push((value % 256) as u8)
    }
}

/// The number that `bytes` spell, most significant byte first.
pub open spec fn from_big_endian(bytes: Seq<u8>) -> nat
    decreases bytes.len(),
{
    if bytes.len() == 0 {
        0
    } else {
        from_big_endian(bytes.drop_last()) * 256 + bytes.last() as nat
    }
}

/// `256` to the power `width`.
pub open spec fn radix_power(width: nat) -> nat
    decreases width,
{
    if width == 0 {
        1
    } else {
        256 * radix_power((width - 1) as nat)
    }
}

/// `payload` with byte `i` XOR-ed with byte `i mod 4` of `key`.
pub open spec fn apply_mask(payload: Seq<u8>, key: Seq<u8>) -> Seq<u8> {
    Seq::new(payload.len(), |i: int| payload[i] ^ key[i % 4])
}

/// The first header byte: the fin bit on top of the low four bits of `op`.
pub open spec fn first_byte(fin: bool, op: u8) -> u8 {
    ((if fin {
        128int
    } else {
        0int
    }) + op % 16) as u8
}

/// The length bytes of a masked frame with `len` payload bytes, in the
/// narrowest of the three encodings.
pub open spec fn masked_length_field(len: nat) -> Seq<u8> {
    if len <= 125 {
        seq![(128 + len) as u8]
    } else if len <= 65535 {
        seq![254u8] + big_endian(len, 2)
    } else {
        seq![255u8] + big_endian(len, 8)
    }
}

/// The bytes of one masked frame.
pub open spec fn frame_bytes(fin: bool, op: u8, payload: Seq<u8>, key: Seq<u8>) -> Seq<u8> {
    seq![first_byte(fin, op)] + masked_length_field(payload.len()) + key + apply_mask(payload, key)
}

/// An outbound message as the application hands it over: fin flag, opcode
/// and an optional body.
pub struct Message {
    pub fin: bool,
    pub op: u8,
    pub body: Option<Seq<u8>>,
}

impl Message {
    /// The payload the message puts on the wire: an absent body is empty.
    pub open spec fn payload(self) -> Seq<u8> {
        match self.body {
            Some(bytes) => bytes,
            None => Seq::<u8>::empty(),
        }
    }

    /// The message as the frame a peer decodes from it.
    pub open spec fn frame(self) -> FrameView {
        FrameView { fin: self.fin, op: self.op, payload: self.payload() }
    }
}

/// The bytes of `messages` sent one after another as masked frames, the
/// frame of message `i` masked with `keys[i]`.
pub open spec fn stream_bytes(messages: Seq<Message>, keys: Seq<Seq<u8>>) -> Seq<u8>
    decreases messages.len(),
{
    if messages.len() == 0 {
        Seq::<u8>::empty()
    } else {
        stream_bytes(messages.drop_last(), keys.drop_last()) + frame_bytes(
            messages.last().fin,
            messages.last().op,
            messages.last().payload(),
            keys.last(),
        )
    }
}

/// Whether `keys` holds one 4-byte mask key for each of `count` frames.
pub open spec fn are_mask_keys(keys: Seq<Seq<u8>>, count: nat) -> bool {
    &&& keys.len() == count
    &&& forall|i: int| 0 <= i < keys.len() ==> (#[trigger] keys[i]).len() == 4
}

/// What the start of a byte stream holds.
pub enum Decoded {
    /// Not enough bytes for a whole frame yet.
    Incomplete,
    /// The header breaks the framing rules.
    Invalid,
    /// A whole frame, and the number of bytes it occupies.
    Frame(FrameView, nat),
}

/// The fin flag in the first header byte.
pub open spec fn header_fin(b0: u8) -> bool {
    b0 >= 128
}

/// The three reserved bits in the first header byte.
pub open spec fn header_reserved(b0: u8) -> nat {
    ((b0 / 16) % 8) as nat
}

/// The opcode in the first header byte.
pub open spec fn header_opcode(b0: u8) -> u8 {
    b0 % 16
}

/// The mask bit in the second header byte.
pub open spec fn header_masked(b1: u8) -> bool {
    b1 >= 128
}

/// The 7-bit length, or length marker, in the second header byte.
pub open spec fn header_length(b1: u8) -> nat {
    (b1 % 128) as nat
}

/// Whether the two header bytes break the framing rules: a reserved bit is
/// set, the opcode is unknown, or a control frame is fragmented or announces
/// more than 125 payload bytes.
pub open spec fn header_is_invalid(b0: u8, b1: u8) -> bool {
    ||| header_reserved(b0) != 0
    ||| !is_known_opcode(header_opcode(b0))
    ||| is_control_opcode(header_opcode(b0)) && (!header_fin(b0) || header_length(b1)
        > MAX_CONTROL_PAYLOAD)
}

/// The number of extended length bytes that follow the second header byte.
pub open spec fn extended_length_width(b1: u8) -> nat {
    if header_length(b1) == 126 {
        2
    } else if header_length(b1) == 127 {
        8
    } else {
        0
    }
}

/// Decodes the frame at the start of `bytes`, if a whole valid one is there.
pub open spec fn decode(bytes: Seq<u8>) -> Decoded {
    if bytes.len() < 2 {
        Decoded::Incomplete
    } else if header_is_invalid(bytes[0], bytes[1]) {
        Decoded::Invalid
    } else {
        let width = extended_length_width(bytes[1]);
        let key_at = 2 + width;
        let body_at = key_at + if header_masked(bytes[1]) {
            4nat
        } else {
            0nat
        };
        if bytes.len() < body_at {
            Decoded::Incomplete
        } else {
            let len = if width == 0 {
                header_length(bytes[1])
            } else {
                from_big_endian(bytes.subrange(2, key_at as int))
            };
            if bytes.len() < body_at + len {
                Decoded::Incomplete
            } else {
                let raw = bytes.subrange(body_at as int, (body_at + len) as int);
                let payload = if header_masked(bytes[1]) {
                    apply_mask(raw, bytes.subrange(key_at as int, body_at as int))
                } else {
                    raw
                };
                Decoded::Frame(
                    FrameView { fin: header_fin(bytes[0]), op: header_opcode(bytes[0]), payload },
                    body_at + len,
                )
            }
        }
    }
}

/// The frames that one pass over buffered bytes takes in.
pub struct Intake {
    /// The whole frames at the start of the bytes, in order, up to and
    /// including the first close frame.
    pub frames: Seq<FrameView>,
    /// The number of bytes those frames occupy.
    pub consumed: nat,
    /// Whether the pass stopped at a header that breaks the framing rules.
    pub invalid: bool,
}

/// Takes whole frames from the start of `bytes` until the bytes run out, a
/// header is invalid or a close frame has been taken.
pub open spec fn intake(bytes: Seq<u8>) -> Intake
    decreases bytes.len(),
{
    match decode(bytes) {
        Decoded::Incomplete => Intake { frames: Seq::empty(), consumed: 0, invalid: false },
        Decoded::Invalid => Intake { frames: Seq::empty(), consumed: 0, invalid: true },
        Decoded::Frame(frame, used) => if frame.op == OP_CLOSE {
            Intake { frames: seq![frame], consumed: used, invalid: false }
        } else {
            let rest = intake(bytes.skip(used as int));
            Intake {
                frames: seq![frame] + rest.frames,
                consumed: used + rest.consumed,
                invalid: rest.invalid,
            }
        },
    }
}

/// The frames the application gets to see: all but pings and the close frame.
pub open spec fn application_frames(frames: Seq<FrameView>) -> Seq<FrameView> {
    frames.filter(|frame: FrameView| frame.op != OP_PING && frame.op != OP_CLOSE)
}

/// The pings among `frames`, in order.
pub open spec fn pings(frames: Seq<FrameView>) -> Seq<FrameView> {
    frames.filter(|frame: FrameView| frame.op == OP_PING)
}

/// The pong that answers `ping`: final, with the ping's payload.
pub open spec fn pong_for(ping: FrameView) -> Message {
    Message { fin: true, op: OP_PONG, body: Some(ping.payload) }
}

/// The pongs that answer the pings among `frames`, in order.
pub open spec fn pong_replies(frames: Seq<FrameView>) -> Seq<Message> {
    pings(frames).map_values(|ping: FrameView| pong_for(ping))
}

/// Whether the last of `frames` is a close frame.
pub open spec fn ends_with_close(frames: Seq<FrameView>) -> bool {
    frames.len() > 0 && frames.last().op == OP_CLOSE
}

/// A decoded frame: the kind of frame, its fin flag and its unmasked payload.
#[derive(Debug, Clone, PartialEq, Eq)]
pub enum WebsocketFrame {
    /// A further fragment of a fragmented message.
    Continuation(bool, Vec<u8>),
    /// A text frame.
    Text(bool, Vec<u8>),
    /// A binary frame.
    Binary(bool, Vec<u8>),
    /// A ping; the engine answers it with a pong.
    Ping(bool, Vec<u8>),
    /// A pong.
    Pong(bool, Vec<u8>),
    /// A close frame.
    Close(bool, Vec<u8>),
}

impl View for WebsocketFrame {
    type V = FrameView;

    open spec fn view(&self) -> FrameView {
        match *self {
            WebsocketFrame::Continuation(fin, payload) => FrameView {
                fin,
                op: OP_CONTINUATION,
                payload: payload@,
            },
            WebsocketFrame::Text(fin, payload) => FrameView { fin, op: OP_TEXT, payload: payload@ },
            WebsocketFrame::Binary(fin, payload) => FrameView {
                fin,
                op: OP_BINARY,
                payload: payload@,
            },
            WebsocketFrame::Ping(fin, payload) => FrameView { fin, op: OP_PING, payload: payload@ },
            WebsocketFrame::Pong(fin, payload) => FrameView { fin, op: OP_PONG, payload: payload@ },
            WebsocketFrame::Close(fin, payload) => FrameView {
                fin,
                op: OP_CLOSE,
                payload: payload@,
            },
        }
    }
}

impl WebsocketFrame {
    /// Whether the frame is the last fragment of its message.
    pub fn fin(&self) -> (fin: bool)
        ensures
            fin == self@.fin,
    {
        match self {
            WebsocketFrame::Continuation(fin, _) => *fin,
            WebsocketFrame::Text(fin, _) => *fin,
            WebsocketFrame::Binary(fin, _) => *fin,
            WebsocketFrame::Ping(fin, _) => *fin,
            WebsocketFrame::Pong(fin, _) => *fin,
            WebsocketFrame::Close(fin, _) => *fin,
        }
    }

    /// The opcode of the frame.
    pub fn opcode(&self) -> (op: u8)
        ensures
            op == self@.op,
            is_known_opcode(op),
    {
        match self {
            WebsocketFrame::Continuation(_, _) => OP_CONTINUATION,
            WebsocketFrame::Text(_, _) => OP_TEXT,
            WebsocketFrame::Binary(_, _) => OP_BINARY,
            WebsocketFrame::Ping(_, _) => OP_PING,
            WebsocketFrame::Pong(_, _) => OP_PONG,
            WebsocketFrame::Close(_, _) => OP_CLOSE,
        }
    }

    /// The unmasked payload of the frame.
    pub fn payload(&self) -> (payload: &[u8])
        ensures
            payload@ == self@.payload,
    {
        match self {
            WebsocketFrame::Continuation(_, payload) => payload.as_slice(),
            WebsocketFrame::Text(_, payload) => payload.as_slice(),
            WebsocketFrame::Binary(_, payload) => payload.as_slice(),
            WebsocketFrame::Ping(_, payload) => payload.as_slice(),
            WebsocketFrame::Pong(_, payload) => payload.as_slice(),
            WebsocketFrame::Close(_, payload) => payload.as_slice(),
        }
    }

    /// The frame with the given opcode, or `None` for an opcode the protocol
    /// does not define.
    pub fn from_parts(fin: bool, op: u8, payload: Vec<u8>) -> (frame: Option<WebsocketFrame>)
        ensures
            match frame {
                Some(f) => is_known_opcode(op) && f@ == (FrameView { fin, op, payload: payload@ }),
                None => !is_known_opcode(op),
            },
    {
        if op == OP_CONTINUATION {
            Some(WebsocketFrame::Continuation(fin, payload))
        } else if op == OP_TEXT {
            Some(WebsocketFrame::Text(fin, payload))
        } else if op == OP_BINARY {
            Some(WebsocketFrame::Binary(fin, payload))
        } else if op == OP_PING {
            Some(WebsocketFrame::Ping(fin, payload))
        } else if op == OP_PONG {
            Some(WebsocketFrame::Pong(fin, payload))
        } else if op == OP_CLOSE {
            Some(WebsocketFrame::Close(fin, payload))
        } else {
            None
        }
    }
}

} // verus!
