use pdb::codec::encode_frame;
use pdb::session::{Session, SessionAction, SessionEvent, SessionState};
use pdb::{MessageHeader, PdbError};

fn closed_with(e: PdbError) -> SessionAction {
    SessionAction::Close(Err(e))
}

#[test]
fn session_starts_waiting_for_a_header() {
    let session = Session::new(1024);
    assert_eq!(session.state(), SessionState::AwaitHeader);
    assert_eq!(session.max_request(), 1024);
    assert!(!session.is_closed());
}

#[test]
fn session_goes_round_once_per_command() {
    let mut session = Session::new(1024);
    for round in 0..3u8 {
        let body = vec![round; 5];
        let header = MessageHeader::new(5).to_bytes();
        assert_eq!(session.step(SessionEvent::Header(header)), SessionAction::ReadBody { length: 5 });
        assert_eq!(session.state(), SessionState::AwaitBody { length: 5 });
        assert_eq!(
            session.step(SessionEvent::Body(body.clone())),
            SessionAction::Dispatch { payload: body }
        );
        assert_eq!(session.state(), SessionState::Dispatch);
        let reply = vec![b'o', b'k', round];
        let frame = encode_frame(&reply, u32::MAX).unwrap();
        assert_eq!(session.step(SessionEvent::Reply(reply)), SessionAction::Write { frame });
        assert_eq!(session.state(), SessionState::Respond);
        assert_eq!(session.step(SessionEvent::Written), SessionAction::ReadHeader);
        assert_eq!(session.state(), SessionState::AwaitHeader);
    }
}

#[test]
fn end_of_stream_before_a_header_ends_the_session_in_peace() {
    let mut session = Session::new(1024);
    assert_eq!(session.step(SessionEvent::EndOfStream), SessionAction::Close(Ok(())));
    assert!(session.is_closed());
}

#[test]
fn end_of_stream_inside_a_frame_is_an_error() {
    let mut session = Session::new(1024);
    session.step(SessionEvent::Header(MessageHeader::new(4).to_bytes()));
    assert_eq!(
        session.step(SessionEvent::EndOfStream),
        closed_with(PdbError::IoError("Unexpected end of stream".to_string()))
    );
    assert!(session.is_closed());
}

#[test]
fn oversized_request_ends_the_session_before_the_body() {
    let mut session = Session::new(1024);
    let header = MessageHeader { version: 1, length: 4_294_967_295 }.to_bytes();
    assert_eq!(
        session.step(SessionEvent::Header(header)),
        closed_with(PdbError::ProtocolError("Payload too large".to_string()))
    );
    assert_eq!(session.state(), SessionState::Closed);
}

#[test]
fn request_at_the_bound_is_accepted() {
    let mut session = Session::new(16);
    let header = MessageHeader::new(16).to_bytes();
    assert_eq!(session.step(SessionEvent::Header(header)), SessionAction::ReadBody { length: 16 });
    let mut session = Session::new(16);
    let header = MessageHeader::new(17).to_bytes();
    assert!(matches!(session.step(SessionEvent::Header(header)), SessionAction::Close(Err(_))));
}

#[test]
fn empty_body_is_dispatched() {
    let mut session = Session::new(16);
    let header = MessageHeader::new(0).to_bytes();
    assert_eq!(session.step(SessionEvent::Header(header)), SessionAction::ReadBody { length: 0 });
    assert_eq!(session.step(SessionEvent::Body(vec![])), SessionAction::Dispatch { payload: vec![] });
}

#[test]
fn body_of_another_length_ends_the_session() {
    for body in [vec![1u8, 2], vec![1, 2, 3, 4]] {
        let mut session = Session::new(16);
        session.step(SessionEvent::Header(MessageHeader::new(3).to_bytes()));
        assert_eq!(
            session.step(SessionEvent::Body(body)),
            closed_with(PdbError::ProtocolError("Body length mismatch".to_string()))
        );
    }
}

#[test]
fn malformed_payload_ends_the_session() {
    let mut session = Session::new(16);
    session.step(SessionEvent::Header(MessageHeader::new(1).to_bytes()));
    session.step(SessionEvent::Body(vec![b'{']));
    assert_eq!(
        session.step(SessionEvent::Malformed("EOF while parsing".to_string())),
        closed_with(PdbError::SerializationError("EOF while parsing".to_string()))
    );
    assert!(session.is_closed());
}

#[test]
fn transport_failure_ends_the_session_in_every_state() {
    let reach: Vec<Vec<SessionEvent>> = vec![
        vec![],
        vec![SessionEvent::Header(MessageHeader::new(1).to_bytes())],
        vec![SessionEvent::Header(MessageHeader::new(1).to_bytes()), SessionEvent::Body(vec![0])],
        vec![
            SessionEvent::Header(MessageHeader::new(1).to_bytes()),
            SessionEvent::Body(vec![0]),
            SessionEvent::Reply(vec![1]),
        ],
    ];
    for events in reach {
        let mut session = Session::new(16);
        for event in events {
            session.step(event);
        }
        assert!(!session.is_closed());
        assert_eq!(
            session.step(SessionEvent::Failed("connection reset".to_string())),
            closed_with(PdbError::IoError("connection reset".to_string()))
        );
        assert!(session.is_closed());
    }
}

#[test]
fn event_out_of_turn_ends_the_session() {
    let mut session = Session::new(16);
    assert_eq!(
        session.step(SessionEvent::Written),
        closed_with(PdbError::ProtocolError("Unexpected event".to_string()))
    );
    let mut session = Session::new(16);
    assert!(matches!(session.step(SessionEvent::Body(vec![])), SessionAction::Close(Err(_))));
    let mut session = Session::new(16);
    session.step(SessionEvent::Header(MessageHeader::new(1).to_bytes()));
    assert!(matches!(
        session.step(SessionEvent::Header(MessageHeader::new(1).to_bytes())),
        SessionAction::Close(Err(_))
    ));
}

#[test]
fn closed_session_stays_closed() {
    let mut session = Session::new(16);
    session.step(SessionEvent::EndOfStream);
    for event in [
        SessionEvent::Header(MessageHeader::new(1).to_bytes()),
        SessionEvent::EndOfStream,
        SessionEvent::Body(vec![]),
        SessionEvent::Reply(vec![]),
        SessionEvent::Written,
        SessionEvent::Failed("late".to_string()),
    ] {
        assert_eq!(
            session.step(event),
            closed_with(PdbError::ProtocolError("Unexpected event".to_string()))
        );
        assert!(session.is_closed());
    }
}
