//! Laws of the upgrade negotiation: how the handshake state moves when the
//! response arrives in pieces, and which responses can complete it.

use vstd::prelude::*;
use vstd::seq_lib::lemma_flatten_alt_concat;
use crate::error::ProtocolError;
use crate::ws::handshake::ends_with_terminator;
use crate::ws::handshake::HandshakeState;
use crate::ws::handshake::HandshakerView;
use crate::ws::handshake::MAX_RESPONSE_HEADERS;
use crate::ws::outside::response_status;

verus! {

/// The handshaker after `chunks` arrived one read at a time, each read
/// followed by one call of `perform_handshake`.
pub open spec fn delivered(start: HandshakerView, chunks: Seq<Seq<u8>>) -> HandshakerView
    decreases chunks.len(),
{
    if chunks.len() == 0 {
        start
    } else {
        delivered(start, chunks.drop_last()).received(chunks.last()).advanced()
    }
}

/// How often the handshake entered `Completed` while `chunks` arrived.
pub open spec fn completions(start: HandshakerView, chunks: Seq<Seq<u8>>) -> nat
    decreases chunks.len(),
{
    if chunks.len() == 0 {
        0
    } else {
        let before = delivered(start, chunks.drop_last());
        let after = delivered(start, chunks);
        let entered: nat = if before.state != HandshakeState::Completed && after.state
            == HandshakeState::Completed {
            1
        } else {
            0
        };
        completions(start, chunks.drop_last()) + entered
    }
}

/// A response head that accepts the upgrade: it ends with the blank line,
/// holds no earlier blank line, and parses to status 101.
pub open spec fn is_upgrade_response(head: Seq<u8>) -> bool {
    &&& ends_with_terminator(head)
    &&& forall|n: int| 0 <= n < head.len() ==> !ends_with_terminator(#[trigger] head.take(n))
    &&& response_status(head, MAX_RESPONSE_HEADERS as nat) == Some(Some(101u16))
}

/// The state of the delivery after the first `count` chunks of an accepting
/// response: everything received so far is buffered, and the handshake is
/// complete exactly when the whole head is there.
proof fn lemma_delivery_progress(start: HandshakerView, chunks: Seq<Seq<u8>>, count: int)
    requires
        start.state == HandshakeState::Pending,
        start.buffered.len() == 0,
        is_upgrade_response(chunks.flatten_alt()),
        chunks.flatten_alt().len() <= start.capacity,
        0 <= count <= chunks.len(),
    ensures
        ({
            let head = chunks.flatten_alt();
            let arrived = chunks.take(count).flatten_alt();
            let whole = arrived.len() == head.len();
            &&& arrived == head.take(arrived.len() as int)
            &&& arrived.len() <= head.len()
            &&& delivered(start, chunks.take(count)) == (HandshakerView {
                buffered: arrived,
                state: if whole {
                    HandshakeState::Completed
                } else {
                    HandshakeState::Pending
                },
                ..start
            })
            &&& completions(start, chunks.take(count)) == if whole {
                1nat
            } else {
                0nat
            }
        }),
    decreases count,
{
    let head = chunks.flatten_alt();
    let arrived = chunks.take(count).flatten_alt();
    assert(chunks =~= chunks.take(count) + chunks.skip(count));
    lemma_flatten_alt_concat(chunks.take(count), chunks.skip(count));
    assert(arrived =~= head.take(arrived.len() as int));
    if count == 0 {
        assert(start.buffered =~= arrived);
    } else {
        lemma_delivery_progress(start, chunks, count - 1);
        let earlier = chunks.take(count - 1);
        let before = delivered(start, earlier);
        assert(chunks.take(count).drop_last() =~= earlier);
        assert(chunks.take(count).last() == chunks[count - 1]);
        assert(arrived =~= earlier.flatten_alt() + chunks[count - 1]);
        if before.state == HandshakeState::Pending {
            assert(before.received(chunks[count - 1]).buffered == arrived);
        } else {
            assert(arrived =~= earlier.flatten_alt());
        }
    }
}

/// However a response that accepts the upgrade is split over reads, down to
/// one byte per read, the handshake completes, it does so exactly once, and
/// it is complete after a read exactly when the whole head has arrived.
pub proof fn lemma_split_response_completes_once(start: HandshakerView, chunks: Seq<Seq<u8>>)
    requires
        start.state == HandshakeState::Pending,
        start.buffered.len() == 0,
        is_upgrade_response(chunks.flatten()),
        chunks.flatten().len() <= start.capacity,
    ensures
        delivered(start, chunks).state == HandshakeState::Completed,
        completions(start, chunks) == 1,
        forall|count: int|
            0 <= count <= chunks.len() ==> ((#[trigger] delivered(
                start,
                chunks.take(count),
            )).state == HandshakeState::Completed <==> chunks.take(count).flatten()
                == chunks.flatten()),
{
    chunks.lemma_flatten_and_flatten_alt_are_equivalent();
    assert(chunks.take(chunks.len() as int) =~= chunks);
    lemma_delivery_progress(start, chunks, chunks.len() as int);
    assert forall|count: int| 0 <= count <= chunks.len() implies ((#[trigger] delivered(
        start,
        chunks.take(count),
    )).state == HandshakeState::Completed <==> chunks.take(count).flatten()
        == chunks.flatten()) by {
        chunks.take(count).lemma_flatten_and_flatten_alt_are_equivalent();
        lemma_delivery_progress(start, chunks, count);
    }
}

/// A response head that is well formed but carries another status than 101
/// fails the handshake with that status and never completes it.
pub proof fn lemma_refused_upgrade_fails(waiting: HandshakerView, code: u16)
    requires
        waiting.state == HandshakeState::Pending,
        ends_with_terminator(waiting.buffered),
        response_status(waiting.buffered, MAX_RESPONSE_HEADERS as nat) == Some(Some(code)),
        code != 101,
    ensures
        waiting.progress() == Err::<crate::error::Progress, ProtocolError>(
            ProtocolError::UpgradeRefused(code),
        ),
        waiting.advanced() == waiting,
{
}

/// The handshake enters `Completed` only from `Pending`, and only on a
/// buffered head that ends with the blank line and parses to status 101.
pub proof fn lemma_completion_needs_101(before: HandshakerView)
    requires
        before.state != HandshakeState::Completed,
        before.advanced().state == HandshakeState::Completed,
    ensures
        before.state == HandshakeState::Pending,
        ends_with_terminator(before.buffered),
        response_status(before.buffered, MAX_RESPONSE_HEADERS as nat) == Some(Some(101u16)),
{
}

/// `Completed` is terminal: neither arriving bytes nor further calls of
/// `perform_handshake` change a completed handshaker.
pub proof fn lemma_completed_is_terminal(done: HandshakerView, chunk: Seq<u8>)
    requires
        done.state == HandshakeState::Completed,
    ensures
        done.received(chunk) == done,
        done.advanced() == done,
        done.progress() == Ok::<crate::error::Progress, ProtocolError>(
            crate::error::Progress::Ready,
        ),
{
}

} // verus!
