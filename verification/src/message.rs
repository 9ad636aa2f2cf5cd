//! The messages that travel between a client and the server.

use vstd::prelude::*;

verus! {

/// What a client can ask of the server.
#[derive(Clone, Copy, Debug, PartialEq, Eq, Structural)]
pub enum Request {
    /// List the games that the server offers.
    Games,
}

/// What travels from a client to the server: a request, or the notice that
/// the client is going away.
#[derive(Clone, Copy, Debug, PartialEq, Eq, Structural)]
pub enum ControlEnvelope {
    /// The client closes the connection.
    Close,
    /// The client asks something.
    Message(Request),
}

/// What the server answers.
#[derive(Debug, PartialEq, Eq)]
pub enum Reply {
    /// The games on offer, each as a name and a version.
    Games(Vec<(String, String)>),
}

/// A list of name and version pairs, each string taken as its characters.
pub open spec fn pairs_view(list: Seq<(String, String)>) -> Seq<(Seq<char>, Seq<char>)> {
    list.map_values(|pair: (String, String)| (pair.0@, pair.1@))
}

impl Reply {
    /// The name and version pairs that the reply lists.
    pub open spec fn games(&self) -> Seq<(Seq<char>, Seq<char>)> {
        match self {
            Reply::Games(list) => pairs_view(list@),
        }
    }
}

impl Clone for Reply {
    fn clone(&self) -> (copy: Reply)
        ensures
            copy.games() == self.games(),
    {
        match self {
            Reply::Games(list) => {
                let mut pairs: Vec<(String, String)> = Vec::with_capacity(list.len());
                let mut i: usize = 0;
                while i < list.len()
                    invariant
                        i <= list@.len(),
                        pairs@.len() == i,
                        forall|j: int|
                            0 <= j < i ==> (#[trigger] pairs@[j]).0@ == list@[j].0@ && pairs@[j].1@
                                == list@[j].1@,
                    decreases list@.len() - i,
                {
                    pairs.push((list[i].0.clone(), list[i].1.clone()));
                    i = i + 1;
                }
                assert(pairs_view(pairs@) =~= pairs_view(list@));
                Reply::Games(pairs)
            },
        }
    }
}

} // verus!
