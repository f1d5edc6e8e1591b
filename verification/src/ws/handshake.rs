//! The client side of the websocket upgrade handshake.

use std::collections::VecDeque;
use vstd::prelude::*;
use vstd::slice::slice_to_vec;
use vstd::utf8::encode_utf8;
use crate::buffer::ReadBuffer;
use crate::error::Progress;
use crate::error::ProtocolError;
use crate::ws::encoder::encode_frame;
use crate::ws::encoder::outbound_message;
use crate::ws::frame::are_mask_keys;
use crate::ws::frame::stream_bytes;
use crate::ws::frame::Message;
use crate::ws::outside::base64_encode;
use crate::ws::outside::base64_standard;
use crate::ws::outside::parse_response_head;
use crate::ws::outside::random_bytes;
use crate::ws::outside::response_status;
use crate::ws::outside::switching_protocols;

verus! {

/// The number of bytes the handshake buffers while it waits for the response head.
pub const HANDSHAKE_BUFFER_CAPACITY: usize = 8192;

/// The number of header lines a response head may carry.
pub const MAX_RESPONSE_HEADERS: usize = 64;

/// The number of random bytes behind a `Sec-WebSocket-Key`.
pub const NONCE_LENGTH: usize = 16;

/// The text of a `Sec-WebSocket-Key` made from the given random bytes.
pub fn nonce_text(bytes: &[u8; 16]) -> (text: String)
    ensures
        text@ == base64_standard(bytes@),
{
    base64_encode(bytes)
}

/// A fresh `Sec-WebSocket-Key`: sixteen random bytes in base64.
pub fn generate_nonce() -> (nonce: String)
    ensures
        exists|bytes: Seq<u8>|
            bytes.len() == NONCE_LENGTH && nonce@ == #[trigger] base64_standard(bytes),
{
    let bytes = random_bytes::<16>();
    let nonce = nonce_text(&bytes);
    assert(bytes@.len() == NONCE_LENGTH && nonce@ == base64_standard(bytes@));
    nonce
}

/// The byte pattern that ends an HTTP head: CR LF CR LF.
pub open spec fn head_terminator() -> Seq<u8> {
    seq![13u8, 10u8, 13u8, 10u8]
}

/// Whether `bytes` ends with the blank line that terminates an HTTP head.
pub open spec fn ends_with_terminator(bytes: Seq<u8>) -> bool {
    bytes.len() >= 4 && bytes.subrange(bytes.len() - 4, bytes.len() as int) == head_terminator()
}

/// The upgrade request for `endpoint` on `server_name` with the given key text.
pub open spec fn upgrade_request(endpoint: Seq<char>, server_name: Seq<char>, key: Seq<char>) -> Seq<
    u8,
> {
    encode_utf8("GET "@) + encode_utf8(endpoint) + encode_utf8(" HTTP/1.1\r\n"@) + encode_utf8(
        "Host: "@,
    ) + encode_utf8(server_name) + encode_utf8("\r\n"@) + encode_utf8("Upgrade: websocket\r\n"@)
        + encode_utf8("Connection: upgrade\r\n"@) + encode_utf8("Sec-WebSocket-Key: "@)
        + encode_utf8(key) + encode_utf8("\r\n"@) + encode_utf8("Sec-WebSocket-Version: 13\r\n"@)
        + encode_utf8("\r\n"@)
}

/// What a parsed response head means for the upgrade: only status 101 lets
/// it through. `None` stands for a head the parser rejected, `Some(None)`
/// for one in which it found no status code.
pub open spec fn upgrade_verdict(status: Option<Option<u16>>) -> Result<(), ProtocolError> {
    match status {
        Some(Some(code)) => if code == 101 {
            Ok(())
        } else {
            Err(ProtocolError::UpgradeRefused(code))
        },
        _ => Err(ProtocolError::MalformedResponse),
    }
}

/// Appends `text` in UTF-8 to `out`.
fn put_text(out: &mut Vec<u8>, text: &str)
    ensures
        final(out)@ == old(out)@ + encode_utf8(text@),
{
    let ghost before = out@;
    out.extend_from_slice(text.as_bytes());
    assert(out@ =~= before + encode_utf8(text@));
}

/// Appends the upgrade request for `endpoint` on `server_name`, carrying
/// `key` as its `Sec-WebSocket-Key`, to `out`.
pub fn write_upgrade_request(out: &mut Vec<u8>, endpoint: &str, server_name: &str, key: &str)
    ensures
        final(out)@ == old(out)@ + upgrade_request(endpoint@, server_name@, key@),
{
    put_text(out, "GET ");
    put_text(out, endpoint);
    put_text(out, " HTTP/1.1\r\n");
    put_text(out, "Host: ");
    put_text(out, server_name);
    put_text(out, "\r\n");
    put_text(out, "Upgrade: websocket\r\n");
    put_text(out, "Connection: upgrade\r\n");
    put_text(out, "Sec-WebSocket-Key: ");
    put_text(out, key);
    put_text(out, "\r\n");
    put_text(out, "Sec-WebSocket-Version: 13\r\n");
    put_text(out, "\r\n");
    assert(out@ =~= old(out)@ + upgrade_request(endpoint@, server_name@, key@));
}

/// Decides the upgrade from what the response parser returned.
pub fn check_upgrade_response(parsed: Result<Option<u16>, httparse::Error>) -> (verdict: Result<
    (),
    ProtocolError,
>)
    ensures
        verdict == upgrade_verdict(
            match parsed {
                Ok(code) => Some(code),
                Err(_) => None,
            },
        ),
{
    match parsed {
        Ok(Some(code)) => {
            if code == switching_protocols() {
                Ok(())
            } else {
                Err(ProtocolError::UpgradeRefused(code))
            }
        },
        Ok(None) => Err(ProtocolError::MalformedResponse),
        Err(_) => Err(ProtocolError::MalformedResponse),
    }
}

/// Whether the slice ends with CR LF CR LF.
pub fn is_terminated(bytes: &[u8]) -> (terminated: bool)
    ensures
        terminated == ends_with_terminator(bytes@),
{
    let n = bytes.len();
    if n < 4 {
        return false;
    }
    let terminated = bytes[n - 4] == 13 && bytes[n - 3] == 10 && bytes[n - 2] == 13 && bytes[n - 1]
        == 10;
    proof {
        let tail = bytes@.subrange(n - 4, n as int);
        if terminated {
            assert(tail =~= head_terminator());
        } else {
            assert(tail[0] == bytes@[n - 4]);
            assert(tail[1] == bytes@[n - 3]);
            assert(tail[2] == bytes@[n - 2]);
            assert(tail[3] == bytes@[n - 1]);
        }
    }
    terminated
}

/// Where the upgrade negotiation stands.
#[derive(Debug, Copy, Clone, Eq, PartialEq, Structural)]
pub enum HandshakeState {
    /// The upgrade request has not been sent.
    NotStarted,
    /// The request is out and the response head is awaited.
    Pending,
    /// The server switched protocols. This state is never left.
    Completed,
}

/// A [`Handshaker`] as a value.
pub struct HandshakerView {
    /// Where the negotiation stands.
    pub state: HandshakeState,
    /// The host named in the request.
    pub server_name: Seq<char>,
    /// The path named in the request.
    pub endpoint: Seq<char>,
    /// The response bytes received so far.
    pub buffered: Seq<u8>,
    /// The most response bytes that can be buffered.
    pub capacity: nat,
    /// The messages that wait for the handshake to complete, oldest first.
    pub pending: Seq<Message>,
}

impl HandshakerView {
    /// What the buffered response head means for the upgrade.
    pub open spec fn response_verdict(self) -> Result<(), ProtocolError> {
        upgrade_verdict(response_status(self.buffered, MAX_RESPONSE_HEADERS as nat))
    }

    /// The handshaker after `chunk` arrived: bytes are taken only while the
    /// response is awaited, and only if they fit.
    pub open spec fn received(self, chunk: Seq<u8>) -> HandshakerView {
        if self.state == HandshakeState::Pending && self.buffered.len() + chunk.len()
            <= self.capacity {
            HandshakerView { buffered: self.buffered + chunk, ..self }
        } else {
            self
        }
    }

    /// The handshaker after one call of [`Handshaker::perform_handshake`].
    pub open spec fn advanced(self) -> HandshakerView {
        match self.state {
            HandshakeState::NotStarted => HandshakerView { state: HandshakeState::Pending, ..self },
            HandshakeState::Pending => if ends_with_terminator(self.buffered)
                && self.response_verdict().is_ok() {
                HandshakerView { state: HandshakeState::Completed, ..self }
            } else {
                self
            },
            HandshakeState::Completed => self,
        }
    }

    /// What one call of [`Handshaker::perform_handshake`] reports.
    pub open spec fn progress(self) -> Result<Progress, ProtocolError> {
        match self.state {
            HandshakeState::NotStarted => Ok(Progress::WouldBlock),
            HandshakeState::Pending => if ends_with_terminator(self.buffered) {
                match self.response_verdict() {
                    Ok(()) => Ok(Progress::WouldBlock),
                    Err(e) => Err(e),
                }
            } else {
                Ok(Progress::WouldBlock)
            },
            HandshakeState::Completed => Ok(Progress::Ready),
        }
    }
}

/// The message that a queue entry stands for.
pub open spec fn entry_message(entry: (u8, bool, Option<Vec<u8>>)) -> Message {
    Message {
        fin: entry.1,
        op: entry.0,
        body: match entry.2 {
            Some(bytes) => Some(bytes@),
            None => None,
        },
    }
}

/// The upgrade negotiation of one connection, together with the messages
/// the application sent before the negotiation was over.
#[derive(Debug)]
pub struct Handshaker {
    buffer: ReadBuffer,
    state: HandshakeState,
    server_name: String,
    endpoint: String,
    pending_msg_buffer: VecDeque<(u8, bool, Option<Vec<u8>>)>,
}

impl View for Handshaker {
    type V = HandshakerView;

    closed spec fn view(&self) -> HandshakerView {
        HandshakerView {
            state: self.state,
            server_name: self.server_name@,
            endpoint: self.endpoint@,
            buffered: self.buffer.contents(),
            capacity: self.buffer.limit(),
            pending: self.pending_msg_buffer@.map_values(
                |entry: (u8, bool, Option<Vec<u8>>)| entry_message(entry),
            ),
        }
    }
}

impl Handshaker {
    /// A handshaker for the path `endpoint` on the host `server_name`, with
    /// nothing sent, received or queued.
    pub fn new(server_name: &str, endpoint: &str) -> (handshaker: Handshaker)
        ensures
            handshaker@ == (HandshakerView {
                state: HandshakeState::NotStarted,
                server_name: server_name@,
                endpoint: endpoint@,
                buffered: Seq::<u8>::empty(),
                capacity: HANDSHAKE_BUFFER_CAPACITY as nat,
                pending: Seq::<Message>::empty(),
            }),
    {
        let handshaker = Handshaker {
            buffer: ReadBuffer::new(HANDSHAKE_BUFFER_CAPACITY),
            state: HandshakeState::NotStarted,
            server_name: server_name.to_owned(),
            endpoint: endpoint.to_owned(),
            pending_msg_buffer: VecDeque::with_capacity(256),
        };
        assert(handshaker@.pending =~= Seq::<Message>::empty());
        handshaker
    }

    /// Where the negotiation stands.
    pub fn state(&self) -> (state: HandshakeState)
        ensures
            state == self@.state,
    {
        self.state
    }

    /// The most bytes the next read may ask the stream for: one while the
    /// response is awaited, so that the handshake never takes a byte that
    /// follows the response head, and none in the other states.
    pub fn read_size(&self) -> (size: usize)
        ensures
            size == if self@.state == HandshakeState::Pending {
                1usize
            } else {
                0usize
            },
    {
        if self.state == HandshakeState::Pending {
            1
        } else {
            0
        }
    }

    /// Takes in the bytes of one successful read.
    ///
    /// Bytes are buffered only while the response is awaited; in the other
    /// states the call changes nothing. Fails when the bytes do not fit.
    pub fn read(&mut self, chunk: &[u8]) -> (result: Result<(), ProtocolError>)
        ensures
            final(self)@ == old(self)@.received(chunk@),
            result == if old(self)@.state == HandshakeState::Pending && old(self)@.buffered.len()
                + chunk@.len() > old(self)@.capacity {
                Err::<(), ProtocolError>(ProtocolError::CapacityExceeded)
            } else {
                Ok::<(), ProtocolError>(())
            },
    {
        if self.state == HandshakeState::Pending {
            match self.buffer.append(chunk) {
                Ok(()) => Ok(()),
                Err(e) => Err(e),
            }
        } else {
            Ok(())
        }
    }

    /// Whether the buffered bytes end with the blank line that closes a head.
    fn has_whole_head(&self) -> (whole: bool)
        ensures
            whole == ends_with_terminator(self@.buffered),
    {
        if self.buffer.available() < 4 {
            return false;
        }
        let tail = self.buffer.view_last(4);
        proof {
            let held = self.buffer.contents();
            assert(tail@.subrange(tail@.len() - 4, tail@.len() as int) =~= held.subrange(
                held.len() - 4,
                held.len() as int,
            ));
        }
        is_terminated(tail)
    }

    /// Moves the negotiation forward as far as it goes without blocking.
    ///
    /// Before the request is sent, appends the request to `out` and starts
    /// waiting. While waiting, looks for the end of the response head and,
    /// once it is there, has the head parsed: status 101 completes the
    /// handshake, anything else fails it. The call that completes the
    /// handshake still reports `WouldBlock`; every later call reports `Ready`.
    pub fn perform_handshake(&mut self, out: &mut Vec<u8>) -> (result: Result<
        Progress,
        ProtocolError,
    >)
        ensures
            final(self)@ == old(self)@.advanced(),
            result == old(self)@.progress(),
            old(self)@.state != HandshakeState::NotStarted ==> final(out)@ == old(out)@,
            old(self)@.state == HandshakeState::NotStarted ==> exists|nonce: Seq<u8>|
                nonce.len() == NONCE_LENGTH && final(out)@ == old(out)@ + upgrade_request(
                    old(self)@.endpoint,
                    old(self)@.server_name,
                    #[trigger] base64_standard(nonce),
                ),
    {
        match self.state {
            HandshakeState::NotStarted => {
                self.send_handshake_request(out);
                Ok(Progress::WouldBlock)
            },
            HandshakeState::Pending => {
                if self.has_whole_head() {
                    let parsed = parse_response_head(self.buffer.view(), MAX_RESPONSE_HEADERS);
                    match check_upgrade_response(parsed) {
                        Ok(()) => {
                            self.state = HandshakeState::Completed;
                        },
                        Err(e) => {
                            return Err(e);
                        },
                    }
                }
                Ok(Progress::WouldBlock)
            },
            HandshakeState::Completed => Ok(Progress::Ready),
        }
    }

    /// Queues a message until the handshake is complete.
    pub fn buffer_message(&mut self, fin: bool, op: u8, body: Option<&[u8]>)
        ensures
            final(self)@ == (HandshakerView {
                pending: old(self)@.pending.push(outbound_message(fin, op, body)),
                ..old(self)@
            }),
    {
        let body: Option<Vec<u8>> = match body {
            Some(bytes) => Some(slice_to_vec(bytes)),
            None => None,
        };
        self.pending_msg_buffer.push_back((op, fin, body));
        assert(self@.pending =~= old(self)@.pending.push(entry_message((op, fin, body))));
    }

    /// Sends every queued message, oldest first, as one frame each, and
    /// leaves the queue empty.
    ///
    /// Each frame is appended to `out`, masked with a key drawn fresh for it,
    /// exactly as a message sent after the handshake would be.
    pub fn drain_pending_message_buffer(&mut self, out: &mut Vec<u8>)
        ensures
            final(self)@ == (HandshakerView { pending: Seq::<Message>::empty(), ..old(self)@ }),
            exists|keys: Seq<Seq<u8>>|
                are_mask_keys(keys, old(self)@.pending.len()) && final(out)@ == old(out)@
                    + #[trigger] stream_bytes(old(self)@.pending, keys),
    {
        let ghost all = self@.pending;
        let ghost mut keys: Seq<Seq<u8>> = Seq::empty();
        let ghost mut sent: int = 0;
        assert(all.skip(0) =~= all);
        loop
            invariant
                0 <= sent <= all.len(),
                all == old(self)@.pending,
                self@ == (HandshakerView { pending: all.skip(sent), ..old(self)@ }),
                are_mask_keys(keys, sent as nat),
                out@ == old(out)@ + stream_bytes(all.take(sent), keys),
            ensures
                sent == all.len(),
            decreases all.len() - sent,
        {
            let ghost queued = self.pending_msg_buffer@;
            let ghost waiting = self@.pending;
            match self.pending_msg_buffer.pop_front() {
                Some((op, fin, body)) => {
                    let key = random_bytes::<4>();
                    let payload: Option<&[u8]> = match &body {
                        Some(bytes) => Some(bytes.as_slice()),
                        None => None,
                    };
                    let ghost before = out@;
                    encode_frame(out, fin, op, payload, &key);
                    proof {
                        let message = entry_message((op, fin, body));
                        assert(waiting.len() == queued.len());
                        assert(waiting[0] == message);
                        assert(self@.pending =~= waiting.skip(1));
                        assert(waiting.skip(1) =~= all.skip(sent + 1));
                        let longer = all.take(sent + 1);
                        assert(longer.drop_last() =~= all.take(sent));
                        assert(longer.last() == message);
                        assert(keys.push(key@).drop_last() =~= keys);
                        keys = keys.push(key@);
                        sent = sent + 1;
                        assert(out@ =~= old(out)@ + stream_bytes(all.take(sent), keys));
                    }
                },
                None => {
                    assert(waiting.len() == queued.len());
                    break ;
                },
            }
        }
        proof {
            assert(all.take(sent) =~= all);
            assert(self@.pending =~= Seq::<Message>::empty());
        }
    }

    /// Appends the upgrade request, with a fresh key, to `out` and starts
    /// waiting for the response.
    pub fn send_handshake_request(&mut self, out: &mut Vec<u8>)
        ensures
            final(self)@ == (HandshakerView { state: HandshakeState::Pending, ..old(self)@ }),
            exists|nonce: Seq<u8>|
                nonce.len() == NONCE_LENGTH && final(out)@ == old(out)@ + upgrade_request(
                    old(self)@.endpoint,
                    old(self)@.server_name,
                    #[trigger] base64_standard(nonce),
                ),
    {
        let bytes = random_bytes::<16>();
        let key = nonce_text(&bytes);
        write_upgrade_request(out, self.endpoint.as_str(), self.server_name.as_str(), key.as_str());
        self.state = HandshakeState::Pending;
        assert(bytes@.len() == NONCE_LENGTH && out@ == old(out)@ + upgrade_request(
            old(self)@.endpoint,
            old(self)@.server_name,
            base64_standard(bytes@),
        ));
    }
}

} // verus!
