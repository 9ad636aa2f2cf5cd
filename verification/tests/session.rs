use cards::error::ProtocolError;
use cards::fill::ReadEvent;
use cards::message::ControlEnvelope;
use cards::message::Reply;
use cards::message::Request;
use cards::reader::Decoding;
use cards::session::ClientProtocolStream;
use cards::session::ServerSession;

#[test]
fn a_new_session_is_open() {
    let session = ServerSession::new();
    assert!(!session.is_closed());
    assert!(session.start_recv().is_ok());
}

#[test]
fn a_message_hands_on_its_request() {
    let mut session = ServerSession::new();
    let request = session.recv(Some(ControlEnvelope::Message(Request::Games)));
    assert_eq!(request, Ok(Request::Games));
    assert!(!session.is_closed());
    let again = session.recv(Some(ControlEnvelope::Message(Request::Games)));
    assert_eq!(again, Ok(Request::Games));
    assert!(!session.is_closed());
}

#[test]
fn close_closes_and_says_not_connected() {
    let mut session = ServerSession::new();
    assert_eq!(session.recv(Some(ControlEnvelope::Close)), Err(ProtocolError::NotConnected));
    assert!(session.is_closed());
}

#[test]
fn a_closed_session_stays_closed() {
    let mut session = ServerSession::new();
    let _ = session.recv(Some(ControlEnvelope::Close));
    for _ in 0..3 {
        assert!(matches!(session.start_recv(), Err(ProtocolError::NotConnected)));
        assert_eq!(
            session.recv(Some(ControlEnvelope::Message(Request::Games))),
            Err(ProtocolError::NotConnected)
        );
        assert_eq!(session.recv(None), Err(ProtocolError::NotConnected));
        assert_eq!(session.recv(Some(ControlEnvelope::Close)), Err(ProtocolError::NotConnected));
        assert_eq!(session.send(&[1, 2, 3]), Err(ProtocolError::NotConnected));
        assert_eq!(session.send(&vec![0u8; 1 << 24]), Err(ProtocolError::NotConnected));
        assert!(session.is_closed());
    }
}

#[test]
fn a_payload_that_is_no_envelope_is_malformed() {
    let mut session = ServerSession::new();
    assert_eq!(session.recv(None), Err(ProtocolError::Malformed));
    assert!(!session.is_closed());
}

#[test]
fn an_open_session_frames_what_it_sends() {
    let session = ServerSession::new();
    assert_eq!(session.send(&[9, 9]), Ok(vec![2, 0, 0, 0, 9, 9]));
    assert_eq!(session.send(&vec![0u8; 1 << 24]), Err(ProtocolError::PayloadTooLarge));
}

#[test]
fn a_receive_starts_with_an_empty_reader() {
    let session = ServerSession::new();
    let reader = session.start_recv().unwrap();
    assert_eq!(reader.wanted(), 4);
    assert!(reader.at_fill_start());
    match reader.accept(ReadEvent::Data(vec![0, 0, 0, 0])).unwrap() {
        Decoding::Frame(payload) => assert!(payload.is_empty()),
        Decoding::More(_) => panic!("the frame was whole"),
    }
}

#[test]
fn a_client_wraps_its_requests() {
    let client = ClientProtocolStream::new(7u8);
    assert_eq!(client.send(Request::Games), ControlEnvelope::Message(Request::Games));
}

#[test]
fn a_client_takes_a_reply_or_calls_it_malformed() {
    let client = ClientProtocolStream::new(());
    let list = vec![("War".to_string(), "1.0".to_string())];
    assert_eq!(client.recv(Some(Reply::Games(list.clone()))), Ok(Reply::Games(list)));
    assert_eq!(client.recv(None), Err(ProtocolError::Malformed));
}

#[test]
fn a_client_lends_its_connection() {
    let mut client = ClientProtocolStream::new(vec![1u8]);
    client.stream().push(2);
    let (connection, _) = client.release();
    assert_eq!(connection, vec![1, 2]);
}

#[test]
fn releasing_a_client_gives_the_closing_envelope() {
    let client = ClientProtocolStream::new("socket");
    let (connection, last) = client.release();
    assert_eq!(connection, "socket");
    assert_eq!(last, ControlEnvelope::Close);
}
