//! What the server settles before it serves: where it listens, and which
//! games it offers.

use vstd::prelude::*;
use crate::game::Game;
use crate::game::ThreadSafeGame;
use crate::text::same_text;

verus! {

/// The address at which the server listens if it can.
pub const LISTEN_ADDRESS: &'static str = "0.0.0.0:25566";

/// The address at which the server listens if it cannot have the first: any
/// free port, on every interface.
pub const FALLBACK_ADDRESS: &'static str = "0.0.0.0:0";

/// The file that holds a game, in the game's directory.
pub const GAME_SCRIPT: &'static str = "game.lua";

/// The address to bind after `failures` addresses could not be bound: the
/// listen address first, then the fallback, then none.
pub fn bind_address(failures: usize) -> (address: Option<&'static str>)
    ensures
        failures == 0 ==> address == Some(LISTEN_ADDRESS),
        failures == 1 ==> address == Some(FALLBACK_ADDRESS),
        failures >= 2 ==> address is None,
{
    if failures == 0 {
        Some(LISTEN_ADDRESS)
    } else if failures == 1 {
        Some(FALLBACK_ADDRESS)
    } else {
        None
    }
}

/// Whether a file of this name is a game to load.
pub fn is_game_script(file_name: &str) -> (is_script: bool)
    ensures
        is_script == (file_name@ == GAME_SCRIPT@),
{
    same_text(file_name, GAME_SCRIPT)
}

/// The names and versions of the loaded games, in their order: what every
/// session answers from.
pub fn snapshot<L>(games: &Vec<Game<L>>) -> (list: Vec<ThreadSafeGame>)
    ensures
        list@.len() == games@.len(),
        forall|i: int|
            0 <= i < games@.len() ==> (#[trigger] list@[i])@ == (
                games@[i].spec_name(),
                games@[i].spec_version(),
            ),
{
    let mut list: Vec<ThreadSafeGame> = Vec::with_capacity(games.len());
    let mut i: usize = 0;
    while i < games.len()
        invariant
            i <= games@.len(),
            list@.len() == i,
            forall|j: int|
                0 <= j < i ==> (#[trigger] list@[j])@ == (
                    games@[j].spec_name(),
                    games@[j].spec_version(),
                ),
        decreases games@.len() - i,
    {
        list.push(games[i].thread_safe());
        i = i + 1;
    }
    list
}

} // verus!
