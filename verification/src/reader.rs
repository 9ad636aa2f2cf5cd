//! Reading one frame from a stream, piece by piece.
//!
//! A frame is read in two fills: the four bytes of the length prefix, then
//! as many payload bytes as the prefix announces. Each fill has a timer of
//! its own.

use vstd::prelude::*;
use crate::error::IoFailure;
use crate::error::ProtocolError;
use crate::fill::Fill;
use crate::fill::ReadEvent;
use crate::frame::frame_of;
use crate::frame::le_bytes;
use crate::frame::le_bytes_of_le_value;
use crate::frame::le_value;
use crate::frame::le_value_of_le_bytes;
use crate::frame::payload_len;
use crate::frame::PREFIX_LEN;

verus! {

/// Whether `received` is a whole frame: a length prefix and exactly the
/// payload bytes that it announces.
pub open spec fn complete(received: Seq<u8>) -> bool {
    received.len() >= PREFIX_LEN && received.len() == PREFIX_LEN + le_value(received)
}

/// The most bytes that the next read may return once `received` has
/// arrived: what is missing of the prefix, or else of the payload.
pub open spec fn wanted(received: Seq<u8>) -> nat {
    if received.len() < PREFIX_LEN {
        (PREFIX_LEN - received.len()) as nat
    } else if received.len() <= PREFIX_LEN + le_value(received) {
        (PREFIX_LEN + le_value(received) - received.len()) as nat
    } else {
        0
    }
}

/// Whether the next read after `received` is the first of a fill, so that
/// a new timer starts with it.
pub open spec fn at_fill_start(received: Seq<u8>) -> bool {
    received.len() == 0 || received.len() == PREFIX_LEN
}

/// How far the reading of a frame has come.
#[derive(Debug)]
pub enum Decoding {
    /// Bytes are still missing.
    More(FrameReader),
    /// The frame is whole; this is its payload.
    Frame(Vec<u8>),
}

/// The bytes of one frame, as far as they have arrived.
#[derive(Debug)]
pub struct FrameReader {
    announced: Option<u32>,
    fill: Fill,
}

impl FrameReader {
    #[verifier::type_invariant]
    spec fn in_progress(&self) -> bool {
        &&& self.fill.filled().len() < self.fill.capacity()
        &&& match self.announced {
            None => self.fill.capacity() == PREFIX_LEN,
            Some(len) => self.fill.capacity() == len,
        }
    }

    /// The bytes of the frame that have arrived so far.
    pub closed spec fn received(&self) -> Seq<u8> {
        match self.announced {
            None => self.fill.filled(),
            Some(len) => le_bytes(len as nat) + self.fill.filled(),
        }
    }

    /// A reader to which nothing has arrived yet.
    pub fn new() -> (reader: FrameReader)
        ensures
            reader.received() == Seq::<u8>::empty(),
    {
        FrameReader { announced: None, fill: Fill::new(PREFIX_LEN) }
    }

    /// The most bytes that the next read may return.
    pub fn wanted(&self) -> (count: usize)
        ensures
            count == wanted(self.received()),
            count > 0,
            !complete(self.received()),
    {
        proof {
            use_type_invariant(self);
            self.received_shape();
        }
        self.fill.remaining()
    }

    /// Whether the next read is the first of a fill, so that a new timer
    /// starts with it.
    pub fn at_fill_start(&self) -> (first: bool)
        ensures
            first == at_fill_start(self.received()),
    {
        proof {
            use_type_invariant(self);
            self.received_shape();
        }
        self.fill.remaining() == self.fill.size()
    }

    proof fn received_shape(&self)
        requires
            self.in_progress(),
        ensures
            match self.announced {
                None => self.received().len() == self.fill.filled().len(),
                Some(len) => {
                    &&& self.received().len() == PREFIX_LEN + self.fill.filled().len()
                    &&& le_value(self.received()) == len
                },
            },
    {
        match self.announced {
            None => {},
            Some(len) => {
                le_value_of_le_bytes(len as nat);
            },
        }
    }

    /// Takes in what one read came to.
    ///
    /// Bytes that arrived are put behind those already there. When they
    /// make the frame whole its payload is handed out; until then the reader
    /// goes on. A read that returned nothing, a fired timer and a failed
    /// read each end the reading with their error.
    pub fn accept(self, event: ReadEvent) -> (next: Result<Decoding, ProtocolError>)
        requires
            event matches ReadEvent::Data(chunk) ==> chunk@.len() <= wanted(self.received()),
        ensures
            match event {
                ReadEvent::TimerFired => next matches Err(ProtocolError::TimedOut),
                ReadEvent::Failed(failure) => next matches Err(ProtocolError::Io(f)) && f
                    == failure,
                ReadEvent::Data(chunk) => if chunk@.len() == 0 {
                    next matches Err(ProtocolError::Io(IoFailure::UnexpectedEnd))
                } else if complete(self.received() + chunk@) {
                    next matches Ok(Decoding::Frame(payload)) && payload@ == (self.received()
                        + chunk@).skip(PREFIX_LEN as int)
                } else {
                    next matches Ok(Decoding::More(reader)) && reader.received()
                        == self.received() + chunk@
                },
            },
    {
        proof {
            use_type_invariant(&self);
            self.received_shape();
        }
        let ghost before = self.received();
        let announced: Option<u32> = self.announced;
        match self.fill.accept(event) {
            Err(error) => Err(error),
            Ok(fill) => {
                let ghost now = before + (fill.filled().skip(self.fill.filled().len() as int));
                if !fill.is_full() {
                    let reader = FrameReader { announced, fill };
                    proof {
                        reader.received_shape();
                        assert(reader.received() =~= now);
                    }
                    Ok(Decoding::More(reader))
                } else {
                    match announced {
                        Some(len) => {
                            let payload = fill.into_bytes();
                            proof {
                                le_value_of_le_bytes(len as nat);
                                assert(now =~= le_bytes(len as nat) + payload@);
                                assert(payload@ =~= now.skip(PREFIX_LEN as int));
                            }
                            Ok(Decoding::Frame(payload))
                        },
                        None => {
                            let prefix = fill.into_bytes();
                            let len: u32 = payload_len(prefix.as_slice());
                            proof {
                                assert(now =~= prefix@);
                                le_bytes_of_le_value(prefix@);
                            }
                            if len == 0 {
                                let payload: Vec<u8> = Vec::new();
                                assert(payload@ =~= now.skip(PREFIX_LEN as int));
                                Ok(Decoding::Frame(payload))
                            } else {
                                let reader = FrameReader {
                                    announced: Some(len),
                                    fill: Fill::new(len as usize),
                                };
                                assert(reader.received() =~= now);
                                Ok(Decoding::More(reader))
                            }
                        },
                    }
                }
            },
        }
    }
}

/// The bytes of `pieces`, one piece behind the other.
pub open spec fn joined(pieces: Seq<Seq<u8>>) -> Seq<u8>
    decreases pieces.len(),
{
    if pieces.len() == 0 {
        Seq::<u8>::empty()
    } else {
        joined(pieces.drop_last()) + pieces.last()
    }
}

/// Whether `pieces` can be what the reads of one reader returned, from its
/// first read on: each piece holds a byte at least, and no more bytes than
/// the reader asked for after the pieces before it.
pub open spec fn read_in_turn(pieces: Seq<Seq<u8>>) -> bool {
    forall|i: int|
        0 <= i < pieces.len() ==> 0 < (#[trigger] pieces[i]).len() <= wanted(
            joined(pieces.take(i)),
        )
}

/// The frame that carries a payload is whole, holds the payload behind its
/// prefix, and is whole only as a whole: as long as any of its bytes is
/// missing the reader is not done, and asks for no more than what is
/// missing.
pub proof fn frame_is_read_back(payload: Seq<u8>)
    requires
        payload.len() < 0x1_0000_0000,
    ensures
        complete(frame_of(payload)),
        frame_of(payload).skip(PREFIX_LEN as int) == payload,
        forall|k: int|
            0 <= k < frame_of(payload).len() ==> {
                &&& !complete(#[trigger] frame_of(payload).take(k))
                &&& 0 < wanted(frame_of(payload).take(k)) <= frame_of(payload).len() - k
            },
{
    let frame = frame_of(payload);
    le_value_of_le_bytes(payload.len());
    assert(frame.skip(PREFIX_LEN as int) =~= payload);
    assert forall|k: int| 0 <= k < frame.len() implies {
        &&& !complete(#[trigger] frame.take(k))
        &&& 0 < wanted(frame.take(k)) <= frame.len() - k
    } by {
        if k >= PREFIX_LEN {
            assert(le_value(frame.take(k)) == le_value(frame));
        }
    }
}

/// The pieces before the first `count` of `pieces`, joined, are where
/// `pieces` joined begins, and end before it ends if a piece with a byte in
/// it is left.
proof fn joined_begins(pieces: Seq<Seq<u8>>, count: int)
    requires
        0 <= count <= pieces.len(),
        forall|i: int| 0 <= i < pieces.len() ==> (#[trigger] pieces[i]).len() > 0,
    ensures
        joined(pieces.take(count)) == joined(pieces).take(joined(pieces.take(count)).len() as int),
        joined(pieces.take(count)).len() <= joined(pieces).len(),
        count < pieces.len() ==> joined(pieces.take(count)).len() < joined(pieces).len(),
    decreases pieces.len() - count,
{
    if count == pieces.len() {
        assert(pieces.take(count) =~= pieces);
        assert(joined(pieces).take(joined(pieces).len() as int) =~= joined(pieces));
    } else {
        let more = pieces.take(count + 1);
        joined_begins(pieces, count + 1);
        assert(more.drop_last() =~= pieces.take(count));
        assert(more.last() == pieces[count]);
        assert(joined(more) == joined(pieces.take(count)) + pieces[count]);
        assert(joined(pieces.take(count)) =~= joined(more).take(
            joined(pieces.take(count)).len() as int,
        ));
        assert(joined(pieces.take(count)) =~= joined(pieces).take(
            joined(pieces.take(count)).len() as int,
        ));
    }
}

/// A frame that arrives in pieces is read back whole, however many and
/// however small the pieces: after each piece but the last the reader is
/// not done, and with the last it has the frame, whose payload is the one
/// that was framed.
pub proof fn pieces_are_read_back(payload: Seq<u8>, pieces: Seq<Seq<u8>>)
    requires
        payload.len() < 0x1_0000_0000,
        read_in_turn(pieces),
        joined(pieces) == frame_of(payload),
    ensures
        forall|count: int|
            0 <= count < pieces.len() ==> !complete(joined(#[trigger] pieces.take(count))),
        complete(joined(pieces)),
        joined(pieces).skip(PREFIX_LEN as int) == payload,
{
    frame_is_read_back(payload);
    assert forall|count: int| 0 <= count < pieces.len() implies !complete(
        joined(#[trigger] pieces.take(count)),
    ) by {
        joined_begins(pieces, count);
        let arrived = joined(pieces.take(count)).len() as int;
        assert(!complete(frame_of(payload).take(arrived)));
    }
}

} // verus!
