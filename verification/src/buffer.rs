//! A bounded accumulation buffer for bytes that arrived on a connection.

use vstd::prelude::*;
use vstd::slice::slice_subrange;
use vstd::slice::slice_to_vec;
use crate::error::ProtocolError;

verus! {

/// Bytes received but not yet consumed, in arrival order, never more than a
/// fixed capacity.
///
/// Bytes enter only through [`ReadBuffer::append`] and leave only through
/// [`ReadBuffer::consume`]; a consumed byte is never seen again.
#[derive(Debug)]
pub struct ReadBuffer {
    inner: Vec<u8>,
    head: usize,
    capacity: usize,
}

impl ReadBuffer {
    #[verifier::type_invariant]
    spec fn well_formed(&self) -> bool {
        self.head <= self.inner@.len() <= self.capacity
    }

    /// The unconsumed bytes, oldest first.
    pub closed spec fn contents(&self) -> Seq<u8> {
        self.inner@.subrange(self.head as int, self.inner@.len() as int)
    }

    /// The largest number of unconsumed bytes the buffer holds.
    pub closed spec fn limit(&self) -> nat {
        self.capacity as nat
    }

    /// An empty buffer that holds at most `capacity` bytes.
    pub fn new(capacity: usize) -> (buffer: ReadBuffer)
        ensures
            buffer.contents() == Seq::<u8>::empty(),
            buffer.limit() == capacity,
    {
        ReadBuffer { inner: Vec::new(), head: 0, capacity }
    }

    /// The capacity the buffer was made with.
    pub fn capacity(&self) -> (capacity: usize)
        ensures
            capacity == self.limit(),
    {
        self.capacity
    }

    /// The number of unconsumed bytes.
    pub fn available(&self) -> (count: usize)
        ensures
            count == self.contents().len(),
            count <= self.limit(),
    {
        proof {
            use_type_invariant(self);
        }
        self.inner.len() - self.head
    }

    /// How many more bytes fit before the buffer is full.
    pub fn remaining(&self) -> (room: usize)
        ensures
            room == self.limit() - self.contents().len(),
    {
        proof {
            use_type_invariant(self);
        }
        self.capacity - (self.inner.len() - self.head)
    }

    /// All unconsumed bytes.
    pub fn view(&self) -> (bytes: &[u8])
        ensures
            bytes@ == self.contents(),
    {
        proof {
            use_type_invariant(self);
        }
        slice_subrange(self.inner.as_slice(), self.head, self.inner.len())
    }

    /// The last `count` unconsumed bytes.
    pub fn view_last(&self, count: usize) -> (bytes: &[u8])
        requires
            count <= self.contents().len(),
        ensures
            bytes@ == self.contents().subrange(
                self.contents().len() - count,
                self.contents().len() as int,
            ),
    {
        proof {
            use_type_invariant(self);
        }
        let end = self.inner.len();
        let bytes = slice_subrange(self.inner.as_slice(), end - count, end);
        assert(bytes@ =~= self.contents().subrange(
            self.contents().len() - count,
            self.contents().len() as int,
        ));
        bytes
    }

    /// Drops the first `count` unconsumed bytes.
    pub fn consume(&mut self, count: usize)
        requires
            count <= old(self).contents().len(),
        ensures
            final(self).contents() == old(self).contents().skip(count as int),
            final(self).limit() == old(self).limit(),
    {
        proof {
            use_type_invariant(&*self);
        }
        self.head = self.head + count;
        assert(self.contents() =~= old(self).contents().skip(count as int));
    }

    /// Appends the bytes of one successful read.
    ///
    /// Fails, and leaves the buffer as it was, when the bytes do not fit.
    pub fn append(&mut self, bytes: &[u8]) -> (result: Result<(), ProtocolError>)
        ensures
            final(self).limit() == old(self).limit(),
            match result {
                Ok(()) => {
                    &&& old(self).contents().len() + bytes@.len() <= old(self).limit()
                    &&& final(self).contents() == old(self).contents() + bytes@
                },
                Err(e) => {
                    &&& old(self).contents().len() + bytes@.len() > old(self).limit()
                    &&& e == ProtocolError::CapacityExceeded
                    &&& final(self).contents() == old(self).contents()
                },
            },
    {
        proof {
            use_type_invariant(&*self);
        }
        let held = self.inner.len() - self.head;
        if bytes.len() > self.capacity - held {
            return Err(ProtocolError::CapacityExceeded);
        }
        let head = self.head;
        let mut store: Vec<u8> = Vec::new();
        self.head = 0;
        core::mem::swap(&mut self.inner, &mut store);
        if head > 0 {
            store = slice_to_vec(slice_subrange(store.as_slice(), head, store.len()));
        }
        assert(store@ =~= old(self).contents());
        let ghost before = store@;
        store.extend_from_slice(bytes);
        assert(store@ =~= before + bytes@);
        self.inner = store;
        Ok(())
    }
}

} // verus!
