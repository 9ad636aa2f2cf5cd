//! Filling a buffer of a fixed length from the pieces that a stream hands over.
//!
//! The stream itself is not here: whoever owns it performs each read and
//! reports what came of it as a [`ReadEvent`].

use vstd::prelude::*;
use crate::error::IoFailure;
use crate::error::ProtocolError;

verus! {

/// The number of seconds that one fill may take before its timer fires.
pub const READ_TIMEOUT_SECS: u64 = 5;

/// What one read from the stream came to.
#[derive(Debug)]
pub enum ReadEvent {
    /// The read returned these bytes; none at all means that the stream has
    /// ended.
    Data(Vec<u8>),
    /// The timer fired before the read returned.
    TimerFired,
    /// The read failed.
    Failed(IoFailure),
}

/// A buffer of a fixed length together with the number of bytes placed in it
/// so far.
#[derive(Debug)]
pub struct Fill {
    buffer: Vec<u8>,
    offset: usize,
}

impl Fill {
    #[verifier::type_invariant]
    spec fn within_buffer(&self) -> bool {
        self.offset <= self.buffer@.len()
    }

    /// The length of the buffer.
    pub closed spec fn capacity(&self) -> nat {
        self.buffer@.len()
    }

    /// The bytes placed so far, in the order in which they arrived.
    pub closed spec fn filled(&self) -> Seq<u8> {
        self.buffer@.take(self.offset as int)
    }

    /// Whether every byte of the buffer has been placed.
    pub open spec fn full(&self) -> bool {
        self.filled().len() == self.capacity()
    }

    /// An empty buffer of `len` bytes.
    pub fn new(len: usize) -> (fill: Fill)
        ensures
            fill.capacity() == len,
            fill.filled() == Seq::<u8>::empty(),
    {
        let mut buffer: Vec<u8> = Vec::with_capacity(len);
        let mut i: usize = 0;
        while i < len
            invariant
                i <= len,
                buffer@.len() == i,
            decreases len - i,
        {
            buffer.push(0u8);
            i = i + 1;
        }
        let fill = Fill { buffer, offset: 0 };
        assert(fill.filled() =~= Seq::<u8>::empty());
        fill
    }

    /// The length of the buffer.
    pub fn size(&self) -> (len: usize)
        ensures
            len == self.capacity(),
    {
        self.buffer.len()
    }

    /// The number of bytes that are still missing: the most that the next
    /// read may return.
    pub fn remaining(&self) -> (count: usize)
        ensures
            count == self.capacity() - self.filled().len(),
    {
        proof {
            use_type_invariant(self);
        }
        self.buffer.len() - self.offset
    }

    /// Whether the buffer is full, so that no read is needed.
    pub fn is_full(&self) -> (full: bool)
        ensures
            full == self.full(),
    {
        proof {
            use_type_invariant(self);
        }
        self.offset == self.buffer.len()
    }

    /// Takes in what one read came to.
    ///
    /// Bytes that arrived are placed behind those already there. A read
    /// that returned nothing means that the stream ended early; a fired
    /// timer or a failed read ends the fill, and what had been placed is
    /// given up with it.
    pub fn accept(self, event: ReadEvent) -> (next: Result<Fill, ProtocolError>)
        requires
            !self.full(),
            event matches ReadEvent::Data(chunk) ==> chunk@.len() <= self.capacity()
                - self.filled().len(),
        ensures
            match event {
                ReadEvent::TimerFired => next == Err::<Fill, ProtocolError>(
                    ProtocolError::TimedOut,
                ),
                ReadEvent::Failed(failure) => next == Err::<Fill, ProtocolError>(
                    ProtocolError::Io(failure),
                ),
                ReadEvent::Data(chunk) => if chunk@.len() == 0 {
                    next == Err::<Fill, ProtocolError>(
                        ProtocolError::Io(IoFailure::UnexpectedEnd),
                    )
                } else {
                    &&& next is Ok
                    &&& next->Ok_0.capacity() == self.capacity()
                    &&& next->Ok_0.filled() == self.filled() + chunk@
                },
            },
    {
        proof {
            use_type_invariant(&self);
        }
        match event {
            ReadEvent::TimerFired => Err(ProtocolError::TimedOut),
            ReadEvent::Failed(failure) => Err(ProtocolError::Io(failure)),
            ReadEvent::Data(chunk) => {
                if chunk.len() == 0 {
                    return Err(ProtocolError::Io(IoFailure::UnexpectedEnd));
                }
                let ghost before = self.filled();
                let offset: usize = self.offset;
                assert(before.len() == offset);
                let mut buffer: Vec<u8> = self.buffer;
                let total: usize = buffer.len();
                let mut i: usize = 0;
                while i < chunk.len()
                    invariant
                        i <= chunk@.len(),
                        offset + chunk@.len() <= total,
                        buffer@.len() == total,
                        buffer@.take(offset as int) == before,
                        forall|j: int| 0 <= j < i ==> buffer@[offset + j] == chunk@[j],
                    decreases chunk@.len() - i,
                {
                    buffer.set(offset + i, chunk[i]);
                    i = i + 1;
                    assert(buffer@.take(offset as int) =~= before);
                }
                let next = Fill { buffer, offset: offset + chunk.len() };
                assert(next.filled() =~= before + chunk@);
                Ok(next)
            },
        }
    }

    /// The bytes of a full buffer.
    pub fn into_bytes(self) -> (bytes: Vec<u8>)
        requires
            self.full(),
        ensures
            bytes@ == self.filled(),
    {
        proof {
            use_type_invariant(&self);
        }
        assert(self.buffer@.take(self.offset as int) =~= self.buffer@);
        self.buffer
    }
}

} // verus!
