//! The two ends of a connection: what each does with a message.
//!
//! Neither end owns a socket here. A session decides; whoever owns the
//! socket reads and writes, turns payload bytes into messages and back, and
//! tells the session what arrived.

use vstd::prelude::*;
use crate::error::ProtocolError;
use crate::frame::encode_frame;
use crate::frame::frame_of;
use crate::frame::MAX_PAYLOAD_LEN;
use crate::message::ControlEnvelope;
use crate::message::Reply;
use crate::message::Request;
use crate::reader::FrameReader;

verus! {

/// What a receive on a server session returns when `decoded` arrived and the
/// session was closed or not: the request of a message, and `NotConnected`
/// both for a closed session and for the envelope that closes it. `None`
/// stands for a payload that is no envelope.
pub open spec fn received(closed: bool, decoded: Option<ControlEnvelope>) -> Result<
    Request,
    ProtocolError,
> {
    if closed {
        Err(ProtocolError::NotConnected)
    } else {
        match decoded {
            None => Err(ProtocolError::Malformed),
            Some(ControlEnvelope::Close) => Err(ProtocolError::NotConnected),
            Some(ControlEnvelope::Message(request)) => Ok(request),
        }
    }
}

/// Whether a server session is closed after `decoded` arrived: it stays
/// closed, and the closing envelope closes it.
pub open spec fn closed_after(closed: bool, decoded: Option<ControlEnvelope>) -> bool {
    closed || decoded == Some(ControlEnvelope::Close)
}

/// What a send on a server session returns: `NotConnected` on a closed
/// session, else what framing the payload gives.
pub open spec fn sent(closed: bool, payload: Seq<u8>) -> Result<Seq<u8>, ProtocolError> {
    if closed {
        Err(ProtocolError::NotConnected)
    } else if payload.len() > MAX_PAYLOAD_LEN {
        Err(ProtocolError::PayloadTooLarge)
    } else {
        Ok(frame_of(payload))
    }
}

/// Whether a session is closed after each of `arrivals` came in, in order.
pub open spec fn closed_after_all(closed: bool, arrivals: Seq<Option<ControlEnvelope>>) -> bool
    decreases arrivals.len(),
{
    if arrivals.len() == 0 {
        closed
    } else {
        closed_after(closed_after_all(closed, arrivals.drop_last()), arrivals.last())
    }
}

/// Closing is for good: whatever arrives at a closed session, however much
/// of it, the session stays closed, and every receive and every send on it
/// gives `NotConnected`.
pub proof fn close_is_latched(
    arrivals: Seq<Option<ControlEnvelope>>,
    next: Option<ControlEnvelope>,
    payload: Seq<u8>,
)
    ensures
        closed_after_all(true, arrivals),
        received(closed_after_all(true, arrivals), next) == Err::<Request, ProtocolError>(
            ProtocolError::NotConnected,
        ),
        sent(closed_after_all(true, arrivals), payload) == Err::<Seq<u8>, ProtocolError>(
            ProtocolError::NotConnected,
        ),
    decreases arrivals.len(),
{
    if arrivals.len() > 0 {
        close_is_latched(arrivals.drop_last(), next, payload);
    }
}

/// The server's side of one accepted connection.
#[derive(Debug)]
pub struct ServerSession {
    closed: bool,
}

impl ServerSession {
    /// Whether the client has closed the session.
    pub closed spec fn closed(&self) -> bool {
        self.closed
    }

    /// The session of a connection that was just accepted: open.
    pub fn new() -> (session: ServerSession)
        ensures
            !session.closed(),
    {
        ServerSession { closed: false }
    }

    /// Whether the client has closed the session.
    pub fn is_closed(&self) -> (closed: bool)
        ensures
            closed == self.closed(),
    {
        self.closed
    }

    /// Begins a receive: hands out the reader for the next frame, or, on a
    /// closed session, `NotConnected`, so that the socket is left alone.
    pub fn start_recv(&self) -> (reader: Result<FrameReader, ProtocolError>)
        ensures
            self.closed() ==> reader matches Err(ProtocolError::NotConnected),
            !self.closed() ==> (reader matches Ok(fresh) && fresh.received() == Seq::<u8>::empty()),
    {
        if self.closed {
            Err(ProtocolError::NotConnected)
        } else {
            Ok(FrameReader::new())
        }
    }

    /// Ends a receive with what the payload of the frame was turned into:
    /// an envelope, or `None` where it was none.
    ///
    /// A request is handed on. The closing envelope closes the session and
    /// is answered with `NotConnected`, as is everything on a session
    /// already closed.
    pub fn recv(&mut self, decoded: Option<ControlEnvelope>) -> (request: Result<
        Request,
        ProtocolError,
    >)
        ensures
            request == received(old(self).closed(), decoded),
            final(self).closed() == closed_after(old(self).closed(), decoded),
    {
        if self.closed {
            return Err(ProtocolError::NotConnected);
        }
        match decoded {
            None => Err(ProtocolError::Malformed),
            Some(ControlEnvelope::Close) => {
                self.closed = true;
                Err(ProtocolError::NotConnected)
            },
            Some(ControlEnvelope::Message(request)) => Ok(request),
        }
    }

    /// The frame that carries the payload of a reply to the client.
    ///
    /// On a closed session nothing is framed and the reply is dropped with
    /// `NotConnected`.
    pub fn send(&self, payload: &[u8]) -> (frame: Result<Vec<u8>, ProtocolError>)
        ensures
            match sent(self.closed(), payload@) {
                Ok(bytes) => frame matches Ok(framed) && framed@ == bytes,
                Err(error) => frame matches Err(e) && e == error,
            },
    {
        if self.closed {
            return Err(ProtocolError::NotConnected);
        }
        encode_frame(payload)
    }
}

/// The client's side of a connection, around the connection itself.
#[derive(Debug)]
pub struct ClientProtocolStream<C> {
    tcp: C,
}

impl<C> ClientProtocolStream<C> {
    /// The connection that the session runs over.
    pub closed spec fn connection(&self) -> C {
        self.tcp
    }

    /// A session over `tcp`.
    pub fn new(tcp: C) -> (client: ClientProtocolStream<C>)
        ensures
            client.connection() == tcp,
    {
        ClientProtocolStream { tcp }
    }

    /// The connection, for reading and writing.
    pub fn stream(&mut self) -> (tcp: &mut C)
        ensures
            *tcp == old(self).connection(),
            final(self).connection() == *final(tcp),
    {
        &mut self.tcp
    }

    /// Ends a receive with what the payload of the frame was turned into: a
    /// reply, or `None` where it was none, which is `Malformed`.
    pub fn recv(&self, decoded: Option<Reply>) -> (reply: Result<Reply, ProtocolError>)
        ensures
            match decoded {
                Some(answer) => reply matches Ok(r) && r == answer,
                None => reply matches Err(ProtocolError::Malformed),
            },
    {
        match decoded {
            Some(answer) => Ok(answer),
            None => Err(ProtocolError::Malformed),
        }
    }

    /// The envelope in which `request` goes to the server.
    pub fn send(&self, request: Request) -> (envelope: ControlEnvelope)
        ensures
            envelope == ControlEnvelope::Message(request),
    {
        ControlEnvelope::Message(request)
    }

    /// Gives the session up: hands back the connection together with the
    /// closing envelope, which is to go out over it as the last thing
    /// before the connection is let go.
    pub fn release(self) -> (last: (C, ControlEnvelope))
        ensures
            last.0 == self.connection(),
            last.1 == ControlEnvelope::Close,
    {
        (self.tcp, ControlEnvelope::Close)
    }
}

} // verus!
