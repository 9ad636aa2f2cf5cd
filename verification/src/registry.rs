//! The server's table of live sessions, by identifier.

use vstd::prelude::*;
use std::collections::HashMap;
use crate::error::ProtocolError;
use crate::message::ControlEnvelope;
use crate::message::Request;
use crate::session::closed_after;
use crate::session::received;
use crate::session::sent;
use crate::session::ServerSession;

verus! {

broadcast use vstd::std_specs::hash::group_hash_axioms;

/// What names a session: a number of 128 bits.
pub type SessionId = u128;

/// How many random identifiers in a row may turn out to be taken before
/// one is picked by counting instead.
pub const MAX_ROLLS: usize = 64;

/// A random identifier: `uuid::Uuid::new_v4`, read as a number by
/// `Uuid::as_u128`. Being random, nothing is claimed of it.
#[verifier::external_body]
fn random_identifier() -> u128 {
    uuid::Uuid::new_v4().as_u128()
}

/// A finite set that holds every number below `count` has at least `count`
/// members.
proof fn holds_at_least(taken: Set<u128>, count: nat)
    requires
        taken.finite(),
        count <= u128::MAX,
        forall|id: u128| id < count ==> taken.contains(id),
    ensures
        count <= taken.len(),
    decreases count,
{
    if count > 0 {
        let last = (count - 1) as u128;
        assert(taken.contains(last));
        holds_at_least(taken.remove(last), (count - 1) as nat);
    }
}

/// Whether `after` is `before` with `handle` entered under `uuid`, an
/// identifier that `before` did not hold.
pub open spec fn entered<C>(
    before: Map<u128, C>,
    uuid: SessionId,
    handle: C,
    after: Map<u128, C>,
) -> bool {
    !before.contains_key(uuid) && after == before.insert(uuid, handle)
}

/// Connections that are entered one after the other get identifiers that
/// all differ, and each identifier then leads to its own connection.
///
/// `tables` are the tables before the first entry, between the entries and
/// after the last; `uuids` and `handles` are what was entered.
pub proof fn identifiers_differ<C>(
    tables: Seq<Map<u128, C>>,
    uuids: Seq<SessionId>,
    handles: Seq<C>,
)
    requires
        tables.len() == uuids.len() + 1,
        handles.len() == uuids.len(),
        forall|i: int|
            #![trigger uuids[i]]
            0 <= i < uuids.len() ==> entered(tables[i], uuids[i], handles[i], tables[i + 1]),
    ensures
        forall|i: int, j: int| 0 <= i < j < uuids.len() ==> uuids[i] != uuids[j],
        forall|i: int|
            #![trigger uuids[i]]
            0 <= i < uuids.len() ==> tables.last().contains_key(uuids[i]) && tables.last()[uuids[i]]
                == handles[i],
{
    stays_entered(tables, uuids, handles, uuids.len() as int);
    assert forall|i: int, j: int| 0 <= i < j < uuids.len() implies uuids[i] != uuids[j] by {
        stays_entered(tables, uuids, handles, j);
        assert(tables[j].contains_key(uuids[i]));
        assert(entered(tables[j], uuids[j], handles[j], tables[j + 1]));
    }
}

/// After the first `count` entries the table holds each of them.
proof fn stays_entered<C>(
    tables: Seq<Map<u128, C>>,
    uuids: Seq<SessionId>,
    handles: Seq<C>,
    count: int,
)
    requires
        tables.len() == uuids.len() + 1,
        handles.len() == uuids.len(),
        0 <= count <= uuids.len(),
        forall|i: int|
            #![trigger uuids[i]]
            0 <= i < uuids.len() ==> entered(tables[i], uuids[i], handles[i], tables[i + 1]),
    ensures
        forall|i: int|
            #![trigger uuids[i]]
            0 <= i < count ==> tables[count].contains_key(uuids[i]) && tables[count][uuids[i]]
                == handles[i],
    decreases count,
{
    if count > 0 {
        stays_entered(tables, uuids, handles, count - 1);
        let last = count - 1;
        assert(entered(tables[last], uuids[last], handles[last], tables[last + 1]));
        assert forall|i: int| #![trigger uuids[i]] 0 <= i < count implies tables[count].contains_key(
            uuids[i],
        ) && tables[count][uuids[i]] == handles[i] by {
            if i < last {
                assert(tables[last].contains_key(uuids[i]));
            }
        }
    }
}

/// The table of live sessions: for each identifier in use, the handle of
/// its connection.
pub struct ServerProtocol<C> {
    streams: HashMap<u128, C>,
}

impl<C> View for ServerProtocol<C> {
    type V = Map<u128, C>;

    closed spec fn view(&self) -> Map<u128, C> {
        self.streams@
    }
}

impl<C> ServerProtocol<C> {
    /// A table without sessions.
    pub fn new() -> (server: ServerProtocol<C>)
        ensures
            server@ == Map::<u128, C>::empty(),
    {
        ServerProtocol { streams: HashMap::new() }
    }

    /// The number of live sessions.
    pub fn len(&self) -> (count: usize)
        ensures
            count == self@.len(),
            self@.dom().finite(),
    {
        self.streams.len()
    }

    /// The handle of the session `uuid`, if there is such a session.
    pub fn get(&self, uuid: SessionId) -> (handle: Option<&C>)
        ensures
            match handle {
                Some(found) => self@.contains_key(uuid) && *found == self@[uuid],
                None => !self@.contains_key(uuid),
            },
    {
        self.streams.get(&uuid)
    }

    /// Takes the session `uuid` out of the table, and says whether it was
    /// there.
    pub fn remove(&mut self, uuid: SessionId) -> (existed: bool)
        ensures
            existed == old(self)@.contains_key(uuid),
            final(self)@ == old(self)@.remove(uuid),
    {
        self.streams.remove(&uuid).is_some()
    }

    /// Enters `handle` under `candidate` if no session has that identifier;
    /// hands `handle` back, and leaves the table as it was, if one has.
    pub fn register(&mut self, candidate: SessionId, handle: C) -> (entered: Result<
        SessionId,
        C,
    >)
        ensures
            match entered {
                Ok(uuid) => {
                    &&& uuid == candidate
                    &&& !old(self)@.contains_key(candidate)
                    &&& final(self)@ == old(self)@.insert(candidate, handle)
                },
                Err(back) => {
                    &&& back == handle
                    &&& old(self)@.contains_key(candidate)
                    &&& final(self)@ == old(self)@
                },
            },
    {
        if self.streams.contains_key(&candidate) {
            Err(handle)
        } else {
            self.streams.insert(candidate, handle);
            Ok(candidate)
        }
    }

    /// The least identifier that no session has.
    pub fn least_free(&self) -> (uuid: SessionId)
        ensures
            !self@.contains_key(uuid),
            forall|below: u128| below < uuid ==> self@.contains_key(below),
    {
        let count: usize = self.streams.len();
        let mut uuid: u128 = 0;
        while self.streams.contains_key(&uuid)
            invariant
                self.streams@.dom().finite(),
                self.streams@.len() == count,
                uuid <= count,
                forall|below: u128| below < uuid ==> self.streams@.contains_key(below),
            decreases count - uuid,
        {
            proof {
                assert forall|id: u128| id < uuid + 1 implies self.streams@.dom().contains(
                    id,
                ) by {
                    if id == uuid {
                    }
                }
                holds_at_least(self.streams@.dom(), (uuid + 1) as nat);
            }
            uuid = uuid + 1;
        }
        uuid
    }

    /// Enters the connection `handle` as a new session and gives the
    /// identifier that it got: one that no session had.
    ///
    /// Identifiers are drawn at random, again for each one that is taken.
    /// Should `MAX_ROLLS` in a row be taken, which no working source of
    /// randomness brings about, the least free identifier is used.
    pub fn connection(&mut self, handle: C) -> (uuid: SessionId)
        ensures
            entered(old(self)@, uuid, handle, final(self)@),
    {
        let mut candidate: u128 = random_identifier();
        let mut rolls: usize = 0;
        while rolls < MAX_ROLLS && self.streams.contains_key(&candidate)
            invariant
                rolls <= MAX_ROLLS,
                self.streams@ == old(self).streams@,
            decreases MAX_ROLLS - rolls,
        {
            candidate = random_identifier();
            rolls = rolls + 1;
        }
        if self.streams.contains_key(&candidate) {
            candidate = self.least_free();
        }
        self.streams.insert(candidate, handle);
        candidate
    }

    /// Ends a receive on the session `uuid`, whose state is `session`, with
    /// what the payload of the frame was turned into.
    ///
    /// For an identifier that is not in the table this is `NotConnected`,
    /// and nothing changes. Else the session decides, and one that the
    /// client has closed leaves the table.
    pub fn recv(
        &mut self,
        uuid: SessionId,
        session: &mut ServerSession,
        decoded: Option<ControlEnvelope>,
    ) -> (request: Result<Request, ProtocolError>)
        ensures
            !old(self)@.contains_key(uuid) ==> {
                &&& request == Err::<Request, ProtocolError>(ProtocolError::NotConnected)
                &&& final(self)@ == old(self)@
                &&& final(session).closed() == old(session).closed()
            },
            old(self)@.contains_key(uuid) ==> {
                &&& request == received(old(session).closed(), decoded)
                &&& final(session).closed() == closed_after(old(session).closed(), decoded)
                &&& final(self)@ == if final(session).closed() {
                    old(self)@.remove(uuid)
                } else {
                    old(self)@
                }
            },
    {
        if !self.streams.contains_key(&uuid) {
            return Err(ProtocolError::NotConnected);
        }
        let request = session.recv(decoded);
        if session.is_closed() {
            self.streams.remove(&uuid);
        }
        request
    }

    /// The frame that carries the payload of a reply to the session `uuid`,
    /// whose state is `session`.
    ///
    /// For an identifier that is not in the table, and for a closed
    /// session, this is `NotConnected`.
    pub fn send(&self, uuid: SessionId, session: &ServerSession, payload: &[u8]) -> (frame:
        Result<Vec<u8>, ProtocolError>)
        ensures
            !self@.contains_key(uuid) ==> frame matches Err(ProtocolError::NotConnected),
            self@.contains_key(uuid) ==> match sent(session.closed(), payload@) {
                Ok(bytes) => frame matches Ok(framed) && framed@ == bytes,
                Err(error) => frame matches Err(e) && e == error,
            },
    {
        if !self.streams.contains_key(&uuid) {
            return Err(ProtocolError::NotConnected);
        }
        session.send(payload)
    }

    /// The handle of the session `uuid`, from which its owner learns the
    /// address of the peer; `NotConnected` for an identifier that is not in
    /// the table.
    pub fn peer_addr(&self, uuid: SessionId) -> (handle: Result<&C, ProtocolError>)
        ensures
            match handle {
                Ok(found) => self@.contains_key(uuid) && *found == self@[uuid],
                Err(error) => !self@.contains_key(uuid) && error == ProtocolError::NotConnected,
            },
    {
        match self.streams.get(&uuid) {
            Some(found) => Ok(found),
            None => Err(ProtocolError::NotConnected),
        }
    }
}

} // verus!
