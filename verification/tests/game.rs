use cards::game::Game;
use cards::game::ThreadSafeGame;

#[test]
fn a_game_keeps_what_it_was_made_of() {
    let game = Game::new("War".to_string(), "1.0".to_string(), 42u32);
    assert_eq!(game.name(), "War");
    assert_eq!(game.version(), "1.0");
    assert_eq!(*game.lua(), 42);
}

#[test]
fn a_game_is_shown_as_name_and_version() {
    let game = Game::new("War".to_string(), "1.0".to_string(), ());
    assert_eq!(game.to_string(), "War [1.0]");
    assert_eq!(game.thread_safe().to_string(), "War [1.0]");
    let nameless = ThreadSafeGame::new(String::new(), String::new());
    assert_eq!(nameless.to_string(), " []");
}

#[test]
fn the_thread_safe_game_has_the_same_name_and_version() {
    let game = Game::new("Crazy Eights".to_string(), "0.3-beta".to_string(), ());
    let plain = game.thread_safe();
    assert_eq!(plain.name(), "Crazy Eights");
    assert_eq!(plain.version(), "0.3-beta");
    let copy = plain.clone();
    assert_eq!(copy.name(), plain.name());
    assert_eq!(copy.version(), plain.version());
}
