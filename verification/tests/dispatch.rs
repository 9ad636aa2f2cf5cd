use cards::dispatch::answer;
use cards::dispatch::Action;
use cards::dispatch::Dispatcher;
use cards::dispatch::Event;
use cards::error::IoFailure;
use cards::error::ProtocolError;
use cards::game::Game;
use cards::game::ThreadSafeGame;
use cards::message::Reply;
use cards::message::Request;
use cards::registry::ServerProtocol;
use cards::server::bind_address;
use cards::server::is_game_script;
use cards::server::snapshot;

fn games() -> Vec<ThreadSafeGame> {
    vec![
        ThreadSafeGame::new("War".to_string(), "1.0".to_string()),
        ThreadSafeGame::new("Uno".to_string(), "2.3".to_string()),
    ]
}

fn listed() -> Reply {
    Reply::Games(vec![
        ("War".to_string(), "1.0".to_string()),
        ("Uno".to_string(), "2.3".to_string()),
    ])
}

#[test]
fn the_answer_lists_the_games_in_order() {
    assert_eq!(answer(Request::Games, &games()), listed());
    assert_eq!(answer(Request::Games, &Vec::new()), Reply::Games(Vec::new()));
}

#[test]
fn a_loop_starts_with_a_receive() {
    let (dispatcher, first) = Dispatcher::new(1, games());
    assert!(matches!(first, Action::Receive));
    assert!(!dispatcher.is_terminated());
}

#[test]
fn a_request_is_answered_and_the_next_awaited() {
    let (mut dispatcher, _) = Dispatcher::new(1, games());
    for _ in 0..3 {
        match dispatcher.step(Event::Received(Ok(Request::Games))) {
            Action::Send(reply) => assert_eq!(reply, listed()),
            _ => panic!("the request was not answered"),
        }
        assert!(matches!(dispatcher.step(Event::Sent(Ok(()))), Action::Receive));
        assert!(!dispatcher.is_terminated());
    }
}

#[test]
fn a_closed_session_ends_the_loop_without_an_error() {
    let (mut dispatcher, _) = Dispatcher::new(1, games());
    let action = dispatcher.step(Event::Received(Err(ProtocolError::NotConnected)));
    assert!(matches!(action, Action::Finish(None)));
    assert!(dispatcher.is_terminated());
    let (mut dispatcher, _) = Dispatcher::new(1, games());
    let action = dispatcher.step(Event::Sent(Err(ProtocolError::NotConnected)));
    assert!(matches!(action, Action::Finish(None)));
    assert!(dispatcher.is_terminated());
}

#[test]
fn every_other_error_ends_the_loop_and_is_logged() {
    for error in [
        ProtocolError::TimedOut,
        ProtocolError::Malformed,
        ProtocolError::PayloadTooLarge,
        ProtocolError::Io(IoFailure::ConnectionReset),
        ProtocolError::Io(IoFailure::BrokenPipe),
        ProtocolError::Io(IoFailure::UnexpectedEnd),
    ] {
        let (mut dispatcher, _) = Dispatcher::new(1, games());
        match dispatcher.step(Event::Received(Err(error))) {
            Action::Finish(Some(logged)) => assert_eq!(logged, error),
            _ => panic!("the loop went on"),
        }
        assert!(dispatcher.is_terminated());
        let (mut dispatcher, _) = Dispatcher::new(1, games());
        match dispatcher.step(Event::Sent(Err(error))) {
            Action::Finish(Some(logged)) => assert_eq!(logged, error),
            _ => panic!("the loop went on"),
        }
        assert!(dispatcher.is_terminated());
    }
}

#[test]
fn an_ended_loop_stays_ended() {
    let (mut dispatcher, _) = Dispatcher::new(1, games());
    let _ = dispatcher.step(Event::Received(Err(ProtocolError::TimedOut)));
    assert!(matches!(dispatcher.step(Event::Received(Ok(Request::Games))), Action::Finish(None)));
    assert!(matches!(dispatcher.step(Event::Sent(Ok(()))), Action::Finish(None)));
    assert!(matches!(
        dispatcher.step(Event::Received(Err(ProtocolError::Malformed))),
        Action::Finish(None)
    ));
    assert!(dispatcher.is_terminated());
}

#[test]
fn finishing_removes_the_session_once() {
    let mut server: ServerProtocol<u8> = ServerProtocol::new();
    let uuid = server.connection(1);
    let other = server.connection(2);
    let (dispatcher, _) = Dispatcher::new(uuid, games());
    assert!(dispatcher.finish(&mut server));
    assert!(server.get(uuid).is_none());
    assert!(!dispatcher.finish(&mut server));
    assert_eq!(server.get(other), Some(&2));
}

#[test]
fn the_server_listens_at_its_address_and_then_anywhere() {
    assert_eq!(bind_address(0), Some("0.0.0.0:25566"));
    assert_eq!(bind_address(1), Some("0.0.0.0:0"));
    assert_eq!(bind_address(2), None);
    assert_eq!(bind_address(usize::MAX), None);
}

#[test]
fn only_game_lua_is_a_game() {
    assert!(is_game_script("game.lua"));
    assert!(!is_game_script("game.luac"));
    assert!(!is_game_script("Game.lua"));
    assert!(!is_game_script("utils.lua"));
    assert!(!is_game_script(""));
}

#[test]
fn the_snapshot_keeps_names_versions_and_order() {
    let loaded = vec![
        Game::new("War".to_string(), "1.0".to_string(), 1u8),
        Game::new("Uno".to_string(), "2.3".to_string(), 2u8),
    ];
    let list = snapshot(&loaded);
    assert_eq!(list.len(), 2);
    assert_eq!(list[0].name(), "War");
    assert_eq!(list[0].version(), "1.0");
    assert_eq!(list[1].name(), "Uno");
    assert_eq!(list[1].version(), "2.3");
    assert_eq!(answer(Request::Games, &list), listed());
}
