//! The games that the server offers: each a name and a version.

use vstd::prelude::*;
use vstd::string::StringExecFns;

verus! {

/// The text under which a game of this name and version is shown: the name,
/// then the version in square brackets.
pub open spec fn label(name: Seq<char>, version: Seq<char>) -> Seq<char> {
    name + seq![' ', '['] + version + seq![']']
}

/// Builds `label(name, version)`.
fn make_label(name: &String, version: &String) -> (text: String)
    ensures
        text@ == label(name@, version@),
{
    proof {
        reveal_strlit(" [");
        reveal_strlit("]");
    }
    let mut text: String = name.clone();
    text.append(" [");
    text.append(version.as_str());
    text.append("]");
    assert(text@ =~= label(name@, version@));
    text
}

/// A game as it was loaded: its name and version, and the state of the
/// interpreter that runs it.
pub struct Game<L> {
    name: String,
    version: String,
    lua: L,
}

impl<L> Game<L> {
    /// The name of the game.
    pub closed spec fn spec_name(&self) -> Seq<char> {
        self.name@
    }

    /// The version of the game.
    pub closed spec fn spec_version(&self) -> Seq<char> {
        self.version@
    }

    /// The state of the interpreter.
    pub closed spec fn spec_lua(&self) -> L {
        self.lua
    }

    /// The game of this name and version that runs in `lua`.
    pub fn new(name: String, version: String, lua: L) -> (game: Game<L>)
        ensures
            game.spec_name() == name@,
            game.spec_version() == version@,
            game.spec_lua() == lua,
    {
        Game { name, version, lua }
    }

    /// The name of the game.
    pub fn name(&self) -> (name: &String)
        ensures
            name@ == self.spec_name(),
    {
        &self.name
    }

    /// The version of the game.
    pub fn version(&self) -> (version: &String)
        ensures
            version@ == self.spec_version(),
    {
        &self.version
    }

    /// The state of the interpreter.
    pub fn lua(&self) -> (lua: &L)
        ensures
            *lua == self.spec_lua(),
    {
        &self.lua
    }

    /// The name and version alone, which can go from thread to thread.
    pub fn thread_safe(&self) -> (game: ThreadSafeGame)
        ensures
            game@ == (self.spec_name(), self.spec_version()),
    {
        ThreadSafeGame { name: self.name.clone(), version: self.version.clone() }
    }

    /// The game as a line of text: `label` of its name and version.
    pub fn to_string(&self) -> (text: String)
        ensures
            text@ == label(self.spec_name(), self.spec_version()),
    {
        make_label(&self.name, &self.version)
    }
}

/// The name and the version of a game, without the interpreter.
#[derive(Debug)]
pub struct ThreadSafeGame {
    name: String,
    version: String,
}

impl View for ThreadSafeGame {
    type V = (Seq<char>, Seq<char>);

    /// The name, then the version.
    closed spec fn view(&self) -> (Seq<char>, Seq<char>) {
        (self.name@, self.version@)
    }
}

impl Clone for ThreadSafeGame {
    fn clone(&self) -> (copy: ThreadSafeGame)
        ensures
            copy@ == self@,
    {
        ThreadSafeGame { name: self.name.clone(), version: self.version.clone() }
    }
}

impl ThreadSafeGame {
    /// The game of this name and version.
    pub fn new(name: String, version: String) -> (game: ThreadSafeGame)
        ensures
            game@ == (name@, version@),
    {
        ThreadSafeGame { name, version }
    }

    /// The name of the game.
    pub fn name(&self) -> (name: &String)
        ensures
            name@ == self@.0,
    {
        &self.name
    }

    /// The version of the game.
    pub fn version(&self) -> (version: &String)
        ensures
            version@ == self@.1,
    {
        &self.version
    }

    /// The game as a line of text: `label` of its name and version.
    pub fn to_string(&self) -> (text: String)
        ensures
            text@ == label(self@.0, self@.1),
    {
        make_label(&self.name, &self.version)
    }
}

} // verus!
