//! One websocket connection as a sans-I/O engine: the upgrade handshake, the
//! queue of early messages and the frame codec behind one interface.

use vstd::prelude::*;
use crate::buffer::ReadBuffer;
use crate::error::Progress;
use crate::error::ProtocolError;
use crate::ws::decoder::decode_next;
use crate::ws::encoder::encode_frame;
use crate::ws::encoder::outbound_message;
use crate::ws::frame::application_frames;
use crate::ws::frame::decode;
use crate::ws::frame::are_mask_keys;
use crate::ws::frame::ends_with_close;
use crate::ws::frame::intake;
use crate::ws::frame::pings;
use crate::ws::frame::pong_for;
use crate::ws::frame::pong_replies;
use crate::ws::frame::stream_bytes;
use crate::ws::frame::FrameView;
use crate::ws::frame::Intake;
use crate::ws::frame::Message;
use crate::ws::frame::WebsocketFrame;
use crate::ws::frame::OP_CLOSE;
use crate::ws::frame::OP_PING;
use crate::ws::frame::OP_PONG;
use crate::ws::handshake::HandshakeState;
use crate::ws::handshake::Handshaker;
use crate::ws::handshake::HandshakerView;
use crate::ws::handshake::HANDSHAKE_BUFFER_CAPACITY;
use crate::ws::outside::base64_standard;
use crate::ws::outside::random_bytes;

verus! {

/// One more frame adds to the visible frames exactly when it is neither a
/// ping nor a close frame, and adds a pong exactly when it is a ping.
pub proof fn lemma_frame_taken(frames: Seq<FrameView>, frame: FrameView)
    ensures
        application_frames(frames.push(frame)) == if frame.op != OP_PING && frame.op != OP_CLOSE {
            application_frames(frames).push(frame)
        } else {
            application_frames(frames)
        },
        pong_replies(frames.push(frame)) == if frame.op == OP_PING {
            pong_replies(frames).push(pong_for(frame))
        } else {
            pong_replies(frames)
        },
{
    reveal(Seq::filter);
    assert(frames.push(frame).drop_last() =~= frames);
    if frame.op == OP_PING {
        assert(pings(frames.push(frame)) =~= pings(frames).push(frame));
        assert(pong_replies(frames.push(frame)) =~= pong_replies(frames).push(pong_for(frame)));
    }
}

/// Why a batch ends: an invalid header is a protocol violation, a close
/// frame closes the connection, and running out of bytes is no error.
pub open spec fn batch_outcome(taken: Intake) -> Result<(), ProtocolError> {
    if taken.invalid {
        Err(ProtocolError::ProtocolViolation)
    } else if ends_with_close(taken.frames) {
        Err(ProtocolError::ClosedByPeer)
    } else {
        Ok(())
    }
}

/// The views of the frames in `frames`, in order.
pub open spec fn frame_views(frames: Seq<WebsocketFrame>) -> Seq<FrameView> {
    frames.map_values(|frame: WebsocketFrame| frame@)
}

/// What one call of [`Websocket::receive_batch`] hands to the application.
#[derive(Debug)]
pub struct Batch {
    /// The frames for the application, in the order they arrived.
    pub frames: Vec<WebsocketFrame>,
    /// Why the batch ended: `Ok` when the buffered bytes ran out.
    pub outcome: Result<(), ProtocolError>,
}

/// A [`Websocket`] as a value.
pub struct WebsocketView {
    /// The upgrade negotiation and the queue of early messages.
    pub handshake: HandshakerView,
    /// The frame bytes received and not yet decoded.
    pub inbound: Seq<u8>,
    /// The most frame bytes that can be buffered.
    pub capacity: nat,
}

/// The protocol engine of one websocket connection.
#[derive(Debug)]
pub struct Websocket {
    handshaker: Handshaker,
    inbound: ReadBuffer,
}

impl View for Websocket {
    type V = WebsocketView;

    closed spec fn view(&self) -> WebsocketView {
        WebsocketView {
            handshake: self.handshaker@,
            inbound: self.inbound.contents(),
            capacity: self.inbound.limit(),
        }
    }
}

impl Websocket {
    /// A fresh connection to the path `endpoint` on the host `server_name`
    /// that buffers at most `capacity` bytes of frames.
    pub fn new(server_name: &str, endpoint: &str, capacity: usize) -> (websocket: Websocket)
        ensures
            websocket@ == (WebsocketView {
                handshake: HandshakerView {
                    state: HandshakeState::NotStarted,
                    server_name: server_name@,
                    endpoint: endpoint@,
                    buffered: Seq::<u8>::empty(),
                    capacity: HANDSHAKE_BUFFER_CAPACITY as nat,
                    pending: Seq::<Message>::empty(),
                },
                inbound: Seq::<u8>::empty(),
                capacity: capacity as nat,
            }),
    {
        Websocket {
            handshaker: Handshaker::new(server_name, endpoint),
            inbound: ReadBuffer::new(capacity),
        }
    }

    /// Whether the upgrade handshake is complete.
    pub fn handshake_complete(&self) -> (complete: bool)
        ensures
            complete == (self@.handshake.state == HandshakeState::Completed),
    {
        self.handshaker.state() == HandshakeState::Completed
    }

    /// The most bytes the next read may ask the stream for: what the
    /// handshake allows while it is under way, and the room left for frame
    /// bytes once it is complete.
    pub fn read_size(&self) -> (size: usize)
        ensures
            size == match self@.handshake.state {
                HandshakeState::NotStarted => 0,
                HandshakeState::Pending => 1,
                HandshakeState::Completed => self@.capacity - self@.inbound.len(),
            },
    {
        if self.handshaker.state() == HandshakeState::Completed {
            self.inbound.remaining()
        } else {
            self.handshaker.read_size()
        }
    }

    /// Takes in the bytes of one successful read: response bytes while the
    /// handshake is under way, frame bytes once it is complete.
    pub fn read(&mut self, chunk: &[u8]) -> (result: Result<(), ProtocolError>)
        ensures
            final(self)@.capacity == old(self)@.capacity,
            old(self)@.handshake.state != HandshakeState::Completed ==> {
                &&& final(self)@.handshake == old(self)@.handshake.received(chunk@)
                &&& final(self)@.inbound == old(self)@.inbound
                &&& result.is_err() <==> old(self)@.handshake.state == HandshakeState::Pending
                    && old(self)@.handshake.buffered.len() + chunk@.len()
                    > old(self)@.handshake.capacity
            },
            old(self)@.handshake.state == HandshakeState::Completed ==> {
                &&& final(self)@.handshake == old(self)@.handshake
                &&& final(self)@.inbound == if result.is_ok() {
                    old(self)@.inbound + chunk@
                } else {
                    old(self)@.inbound
                }
                &&& result.is_err() <==> old(self)@.inbound.len() + chunk@.len() > old(self)@.capacity
            },
            result matches Err(e) ==> e == ProtocolError::CapacityExceeded,
    {
        if self.handshaker.state() == HandshakeState::Completed {
            self.inbound.append(chunk)
        } else {
            self.handshaker.read(chunk)
        }
    }

    /// Sends a message: at once when the handshake is complete, after any
    /// message that is still queued; otherwise the message joins the queue.
    pub fn send(&mut self, out: &mut Vec<u8>, fin: bool, op: u8, body: Option<&[u8]>)
        ensures
            final(self)@.inbound == old(self)@.inbound,
            final(self)@.capacity == old(self)@.capacity,
            ({
                let queue = old(self)@.handshake.pending.push(outbound_message(fin, op, body));
                if old(self)@.handshake.state == HandshakeState::Completed {
                    &&& final(self)@.handshake == (HandshakerView {
                        pending: Seq::<Message>::empty(),
                        ..old(self)@.handshake
                    })
                    &&& exists|keys: Seq<Seq<u8>>|
                        are_mask_keys(keys, queue.len()) && final(out)@ == old(out)@
                            + #[trigger] stream_bytes(queue, keys)
                } else {
                    &&& final(self)@.handshake == (HandshakerView {
                        pending: queue,
                        ..old(self)@.handshake
                    })
                    &&& final(out)@ == old(out)@
                }
            }),
    {
        self.handshaker.buffer_message(fin, op, body);
        if self.handshaker.state() == HandshakeState::Completed {
            self.handshaker.drain_pending_message_buffer(out);
        }
    }

    /// Moves the handshake forward and, once it is complete, sends the
    /// queued messages in the order they were queued.
    pub fn perform_handshake(&mut self, out: &mut Vec<u8>) -> (result: Result<
        Progress,
        ProtocolError,
    >)
        ensures
            final(self)@.inbound == old(self)@.inbound,
            final(self)@.capacity == old(self)@.capacity,
            result == old(self)@.handshake.progress(),
            ({
                let before = old(self)@.handshake;
                let after = before.advanced();
                let request_sent = before.state == HandshakeState::NotStarted;
                if after.state == HandshakeState::Completed {
                    &&& final(self)@.handshake == (HandshakerView {
                        pending: Seq::<Message>::empty(),
                        ..after
                    })
                    &&& exists|keys: Seq<Seq<u8>>|
                        are_mask_keys(keys, before.pending.len()) && final(out)@ == old(out)@
                            + #[trigger] stream_bytes(before.pending, keys)
                } else {
                    &&& final(self)@.handshake == after
                    &&& !request_sent ==> final(out)@ == old(out)@
                    &&& request_sent ==> exists|nonce: Seq<u8>|
                        nonce.len() == 16 && final(out)@ == old(out)@
                            + crate::ws::handshake::upgrade_request(
                            before.endpoint,
                            before.server_name,
                            #[trigger] base64_standard(nonce),
                        )
                }
            }),
    {
        let result = self.handshaker.perform_handshake(out);
        if self.handshaker.state() == HandshakeState::Completed {
            self.handshaker.drain_pending_message_buffer(out);
        }
        result
    }

    /// Takes every whole frame out of the buffered bytes.
    ///
    /// Does nothing before the handshake is complete. After it, first sends
    /// what is still queued; then each ping is answered on `out` with one
    /// pong of the same payload and kept from the application, a close frame
    /// ends the batch with `ClosedByPeer`, an invalid header ends it with a
    /// protocol violation and consumes nothing of the offending frame, and
    /// every other frame is handed on in arrival order.
    pub fn receive_batch(&mut self, out: &mut Vec<u8>) -> (batch: Batch)
        ensures
            final(self)@.capacity == old(self)@.capacity,
            old(self)@.handshake.state != HandshakeState::Completed ==> {
                &&& final(self)@ == old(self)@
                &&& final(out)@ == old(out)@
                &&& batch.frames@.len() == 0
                &&& batch.outcome == Ok::<(), ProtocolError>(())
            },
            old(self)@.handshake.state == HandshakeState::Completed ==> ({
                let taken = intake(old(self)@.inbound);
                let replies = old(self)@.handshake.pending + pong_replies(taken.frames);
                &&& final(self)@.handshake == (HandshakerView {
                    pending: Seq::<Message>::empty(),
                    ..old(self)@.handshake
                })
                &&& final(self)@.inbound == old(self)@.inbound.skip(taken.consumed as int)
                &&& frame_views(batch.frames@) == application_frames(taken.frames)
                &&& batch.outcome == batch_outcome(taken)
                &&& exists|keys: Seq<Seq<u8>>|
                    are_mask_keys(keys, replies.len()) && final(out)@ == old(out)@
                        + #[trigger] stream_bytes(replies, keys)
            }),
    {
        let mut frames: Vec<WebsocketFrame> = Vec::new();
        if self.handshaker.state() != HandshakeState::Completed {
            return Batch { frames, outcome: Ok(()) };
        }
        let ghost queued = self.handshaker@.pending;
        self.handshaker.drain_pending_message_buffer(out);
        let ghost mut keys: Seq<Seq<u8>> = choose|keys: Seq<Seq<u8>>|
            are_mask_keys(keys, queued.len()) && out@ == old(out)@ + #[trigger] stream_bytes(
                queued,
                keys,
            );
        let ghost all = self.inbound.contents();
        let ghost total = intake(all);
        let ghost mut seen: Seq<FrameView> = Seq::empty();
        let ghost mut used: nat = 0;
        let mut outcome: Result<(), ProtocolError> = Ok(());
        proof {
            assert(all.skip(0) =~= all);
            assert(seen + total.frames =~= total.frames);
            reveal(Seq::filter);
            assert(application_frames(seen) =~= frame_views(frames@));
            assert(pong_replies(seen) =~= Seq::<Message>::empty());
            assert(queued + pong_replies(seen) =~= queued);
        }
        loop
            invariant_except_break
                outcome == Ok::<(), ProtocolError>(()),
                !ends_with_close(seen),
                total.frames == seen + intake(all.skip(used as int)).frames,
                total.consumed == used + intake(all.skip(used as int)).consumed,
                total.invalid == intake(all.skip(used as int)).invalid,
            invariant
                all == old(self)@.inbound,
                total == intake(all),
                queued == old(self)@.handshake.pending,
                used <= all.len(),
                self.inbound.contents() == all.skip(used as int),
                self.inbound.limit() == old(self)@.capacity,
                self.handshaker@ == (HandshakerView {
                    pending: Seq::<Message>::empty(),
                    ..old(self)@.handshake
                }),
                frame_views(frames@) == application_frames(seen),
                are_mask_keys(keys, (queued + pong_replies(seen)).len()),
                out@ == old(out)@ + stream_bytes(queued + pong_replies(seen), keys),
            ensures
                total.consumed == used,
                application_frames(total.frames) == application_frames(seen),
                pong_replies(total.frames) == pong_replies(seen),
                outcome == batch_outcome(total),
            decreases all.len() - used,
        {
            let ghost rest = all.skip(used as int);
            match decode_next(&mut self.inbound) {
                Ok(Some(frame)) => {
                    let ghost view = frame@;
                    let ghost size = decode(rest)->Frame_1;
                    proof {
                        lemma_frame_taken(seen, view);
                        assert(rest.skip(size as int) =~= all.skip((used + size) as int));
                    }
                    match frame {
                        WebsocketFrame::Ping(_, payload) => {
                            let key = random_bytes::<4>();
                            let ghost before = out@;
                            encode_frame(out, true, OP_PONG, Some(payload.as_slice()), &key);
                            proof {
                                let sent = queued + pong_replies(seen);
                                let reply = pong_for(view);
                                assert(sent.push(reply) =~= queued + pong_replies(seen.push(view)));
                                assert(sent.push(reply).drop_last() =~= sent);
                                assert(keys.push(key@).drop_last() =~= keys);
                                keys = keys.push(key@);
                                assert(seen.push(view) + intake(rest.skip(size as int)).frames
                                    =~= seen + intake(rest).frames);
                                seen = seen.push(view);
                                used = used + size;
                            }
                        },
                        WebsocketFrame::Close(_, _) => {
                            outcome = Err(ProtocolError::ClosedByPeer);
                            proof {
                                assert(total.frames =~= seen.push(view));
                                used = used + size;
                            }
                            break ;
                        },
                        other => {
                            let ghost held = frames@;
                            frames.push(other);
                            proof {
                                assert(frame_views(frames@) =~= frame_views(held).push(view));
                                assert(seen.push(view) + intake(rest.skip(size as int)).frames
                                    =~= seen + intake(rest).frames);
                                seen = seen.push(view);
                                used = used + size;
                            }
                        },
                    }
                },
                Ok(None) => {
                    proof {
                        assert(total.frames =~= seen);
                    }
                    break ;
                },
                Err(e) => {
                    outcome = Err(e);
                    proof {
                        assert(total.frames =~= seen);
                    }
                    break ;
                },
            }
        }
        Batch { frames, outcome }
    }
}

} // verus!
