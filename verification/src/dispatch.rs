//! The server's loop for one session: receive a request, answer it, and
//! so on until the session ends.
//!
//! The loop itself runs where the sockets are. Here is what it decides:
//! from what the last step came to, the step to take next.

use vstd::prelude::*;
use crate::error::ProtocolError;
use crate::game::ThreadSafeGame;
use crate::message::pairs_view;
use crate::message::Reply;
use crate::message::Request;
use crate::registry::ServerProtocol;
use crate::registry::SessionId;

verus! {

/// The names and versions of `games`, in their order.
pub open spec fn catalog(games: Seq<ThreadSafeGame>) -> Seq<(Seq<char>, Seq<char>)> {
    games.map_values(|game: ThreadSafeGame| game@)
}

/// The answer to `request` from a server that offers `games`.
pub fn answer(request: Request, games: &Vec<ThreadSafeGame>) -> (reply: Reply)
    ensures
        match request {
            Request::Games => reply.games() == catalog(games@),
        },
{
    match request {
        Request::Games => {
            let mut list: Vec<(String, String)> = Vec::with_capacity(games.len());
            let mut i: usize = 0;
            while i < games.len()
                invariant
                    i <= games@.len(),
                    list@.len() == i,
                    pairs_view(list@) == catalog(games@.take(i as int)),
                decreases games@.len() - i,
            {
                let game = &games[i];
                let ghost before = list@;
                let pair: (String, String) = (game.name().clone(), game.version().clone());
                assert((pair.0@, pair.1@) == game@);
                list.push(pair);
                proof {
                    assert(games@.take(i + 1) =~= games@.take(i as int).push(games@[i as int]));
                    assert(list@ == before.push(pair));
                    assert(pairs_view(list@) =~= pairs_view(before).push(game@));
                    assert(pairs_view(list@) =~= catalog(games@.take(i + 1)));
                }
                i = i + 1;
            }
            assert(games@.take(i as int) =~= games@);
            Reply::Games(list)
        },
    }
}

/// What the last step of the loop came to.
#[derive(Debug)]
pub enum Event {
    /// A receive ended, with a request or with an error.
    Received(Result<Request, ProtocolError>),
    /// A send ended, well or with an error.
    Sent(Result<(), ProtocolError>),
}

/// The step that the loop takes next.
#[derive(Debug)]
pub enum Action {
    /// Receive the next request.
    Receive,
    /// Send this reply.
    Send(Reply),
    /// Take the session out of the table and stop. An error that ended the
    /// session is handed over to be logged; the client's closing is none.
    Finish(Option<ProtocolError>),
}

/// The error with which the loop stops on `error`: the error itself, but
/// for `NotConnected`, which is how a session ends in good order.
pub open spec fn to_log(error: ProtocolError) -> Option<ProtocolError> {
    if error == ProtocolError::NotConnected {
        None
    } else {
        Some(error)
    }
}

/// Whether the loop of an active session stops on `event`: it does on every
/// error.
pub open spec fn ends_session(event: Event) -> bool {
    match event {
        Event::Received(Err(_)) => true,
        Event::Sent(Err(_)) => true,
        _ => false,
    }
}

/// Whether `action` is the step that follows `event` in the loop of a
/// session, terminated already or not, of a server that offers `games`.
pub open spec fn follows(
    terminated: bool,
    event: Event,
    games: Seq<ThreadSafeGame>,
    action: Action,
) -> bool {
    if terminated {
        action matches Action::Finish(None)
    } else {
        match event {
            Event::Received(Ok(Request::Games)) => action matches Action::Send(reply)
                && reply.games() == catalog(games),
            Event::Sent(Ok(_)) => action is Receive,
            Event::Received(Err(error)) => action matches Action::Finish(logged) && logged
                == to_log(error),
            Event::Sent(Err(error)) => action matches Action::Finish(logged) && logged == to_log(
                error,
            ),
        }
    }
}

/// The loop of one session: its identifier, the games on offer, and
/// whether it has come to its end.
#[derive(Debug)]
pub struct Dispatcher {
    uuid: SessionId,
    games: Vec<ThreadSafeGame>,
    terminated: bool,
}

impl Dispatcher {
    /// The identifier of the session.
    pub closed spec fn uuid(&self) -> SessionId {
        self.uuid
    }

    /// The games on offer.
    pub closed spec fn games(&self) -> Seq<ThreadSafeGame> {
        self.games@
    }

    /// Whether the loop has come to its end.
    pub closed spec fn terminated(&self) -> bool {
        self.terminated
    }

    /// The loop of the session `uuid` at its start, with the first step to
    /// take: a receive.
    pub fn new(uuid: SessionId, games: Vec<ThreadSafeGame>) -> (start: (Dispatcher, Action))
        ensures
            start.0.uuid() == uuid,
            start.0.games() == games@,
            !start.0.terminated(),
            start.1 is Receive,
    {
        (Dispatcher { uuid, games, terminated: false }, Action::Receive)
    }

    /// Whether the loop has come to its end.
    pub fn is_terminated(&self) -> (terminated: bool)
        ensures
            terminated == self.terminated(),
    {
        self.terminated
    }

    /// The step that follows `event`.
    ///
    /// A request is answered, and after the answer the next request is
    /// awaited. Every error ends the loop, and the loop stays ended.
    pub fn step(&mut self, event: Event) -> (action: Action)
        ensures
            follows(old(self).terminated(), event, old(self).games(), action),
            final(self).terminated() == (old(self).terminated() || ends_session(event)),
            final(self).uuid() == old(self).uuid(),
            final(self).games() == old(self).games(),
    {
        if self.terminated {
            return Action::Finish(None);
        }
        match event {
            Event::Received(Ok(request)) => Action::Send(answer(request, &self.games)),
            Event::Sent(Ok(_)) => Action::Receive,
            Event::Received(Err(error)) => {
                self.terminated = true;
                Action::Finish(Self::logged(error))
            },
            Event::Sent(Err(error)) => {
                self.terminated = true;
                Action::Finish(Self::logged(error))
            },
        }
    }

    fn logged(error: ProtocolError) -> (logged: Option<ProtocolError>)
        ensures
            logged == to_log(error),
    {
        if error == ProtocolError::NotConnected {
            None
        } else {
            Some(error)
        }
    }

    /// Takes the session out of `server`, whether or not it is still
    /// there, and says whether it was.
    pub fn finish<C>(&self, server: &mut ServerProtocol<C>) -> (existed: bool)
        ensures
            existed == old(server)@.contains_key(self.uuid()),
            final(server)@ == old(server)@.remove(self.uuid()),
    {
        server.remove(self.uuid)
    }
}

} // verus!
