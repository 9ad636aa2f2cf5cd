use cards::error::IoFailure;
use cards::error::ProtocolError;
use cards::fill::Fill;
use cards::fill::ReadEvent;
use cards::fill::READ_TIMEOUT_SECS;

#[test]
fn a_fill_of_no_bytes_needs_no_read() {
    let fill = Fill::new(0);
    assert!(fill.is_full());
    assert_eq!(fill.remaining(), 0);
    assert_eq!(fill.into_bytes(), Vec::<u8>::new());
}

#[test]
fn a_new_fill_misses_every_byte() {
    let fill = Fill::new(6);
    assert!(!fill.is_full());
    assert_eq!(fill.size(), 6);
    assert_eq!(fill.remaining(), 6);
}

#[test]
fn each_read_lands_behind_the_last() {
    let fill = Fill::new(6);
    let fill = fill.accept(ReadEvent::Data(vec![1, 2])).unwrap();
    assert_eq!(fill.remaining(), 4);
    let fill = fill.accept(ReadEvent::Data(vec![3])).unwrap();
    assert_eq!(fill.remaining(), 3);
    assert!(!fill.is_full());
    let fill = fill.accept(ReadEvent::Data(vec![4, 5, 6])).unwrap();
    assert!(fill.is_full());
    assert_eq!(fill.size(), 6);
    assert_eq!(fill.into_bytes(), vec![1, 2, 3, 4, 5, 6]);
}

#[test]
fn one_read_may_fill_it_all() {
    let fill = Fill::new(3).accept(ReadEvent::Data(vec![9, 8, 7])).unwrap();
    assert!(fill.is_full());
    assert_eq!(fill.into_bytes(), vec![9, 8, 7]);
}

#[test]
fn a_read_of_nothing_is_an_early_end() {
    let fill = Fill::new(2).accept(ReadEvent::Data(vec![1])).unwrap();
    let ended = fill.accept(ReadEvent::Data(Vec::new()));
    assert!(matches!(ended, Err(ProtocolError::Io(IoFailure::UnexpectedEnd))));
    let ended = Fill::new(2).accept(ReadEvent::Data(Vec::new()));
    assert!(matches!(ended, Err(ProtocolError::Io(IoFailure::UnexpectedEnd))));
}

#[test]
fn the_timer_ends_a_fill() {
    let fill = Fill::new(4).accept(ReadEvent::Data(vec![1, 2, 3])).unwrap();
    assert!(matches!(fill.accept(ReadEvent::TimerFired), Err(ProtocolError::TimedOut)));
    assert!(matches!(Fill::new(4).accept(ReadEvent::TimerFired), Err(ProtocolError::TimedOut)));
    assert_eq!(READ_TIMEOUT_SECS, 5);
}

#[test]
fn a_failed_read_ends_a_fill_with_its_failure() {
    for failure in [
        IoFailure::UnexpectedEnd,
        IoFailure::ConnectionReset,
        IoFailure::ConnectionAborted,
        IoFailure::BrokenPipe,
        IoFailure::Other,
    ] {
        let ended = Fill::new(4).accept(ReadEvent::Failed(failure));
        match ended {
            Err(ProtocolError::Io(seen)) => assert_eq!(seen, failure),
            _ => panic!("the failure was lost"),
        }
    }
}
