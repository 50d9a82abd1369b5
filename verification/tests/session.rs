//! Session state machine transitions and the polling stream driver.
use ws1001::{
    ArgumentType, CommandType, Error, PollOutcome, Session, SessionState, StreamItem,
    WeatherRecord,
};
use ws1001::driver::{drive_all, next_stream_item};

fn now_record_buffer() -> Vec<u8> {
    let mut b = Vec::new();
    b.extend_from_slice(b"HP2000\x00\x00");
    b.extend_from_slice(b"WRITE\x00\x00\x00");
    b.extend_from_slice(b"NOWRECORD\x00\x00\x00\x00\x00\x00\x00");
    b.extend_from_slice(&[0u8; 8]);
    b.extend_from_slice(&270i16.to_le_bytes());
    b.push(40);
    b.push(60);
    for _ in 0..14 {
        b.extend_from_slice(&1.0f32.to_le_bytes());
    }
    b.push(3);
    b.push(25);
    b.extend_from_slice(&[0u8; 2]);
    assert_eq!(b.len(), 104);
    b
}

fn sample_record() -> WeatherRecord {
    WeatherRecord::parse(&now_record_buffer()).unwrap()
}

#[test]
fn session_walks_through_its_phases() {
    let mut session = Session::new();
    assert_eq!(session.state(), SessionState::Idle);
    let search = session.start_discovery();
    assert_eq!(session.state(), SessionState::Discovering);
    assert_eq!(&search.to_bytes().unwrap()[8..16], b"SEARCH\x00\x00");
    session.broadcast_sent();
    assert_eq!(session.state(), SessionState::AwaitingConnection);
    session.connection_accepted();
    assert_eq!(session.state(), SessionState::Connected);
    let query = session.begin_poll();
    assert_eq!(session.state(), SessionState::Polling);
    let query_bytes = query.to_bytes().unwrap();
    assert_eq!(&query_bytes[8..16], b"READ\x00\x00\x00\x00");
    assert_eq!(&query_bytes[16..32], b"NOWRECORD\x00\x00\x00\x00\x00\x00\x00");
    session.close();
    assert_eq!(session.state(), SessionState::Closed);
}

#[test]
fn polling_cycle_decodes_a_frame() {
    let mut session = Session::new();
    session.start_discovery();
    session.broadcast_sent();
    session.connection_accepted();
    session.begin_poll();
    let frame = now_record_buffer();
    let record = session.handle_frame(Some(&frame)).unwrap().unwrap();
    assert_eq!(record.record_header.command, CommandType::Write);
    assert_eq!(record.record_header.argument, ArgumentType::NowRecord);
    assert_eq!(record.wind.direction, 270);
    // The cycle is over; the session is ready for the next one.
    assert_eq!(session.state(), SessionState::Connected);
}

#[test]
fn end_of_stream_leaves_the_session_usable() {
    let mut session = Session::new();
    session.start_discovery();
    session.broadcast_sent();
    session.connection_accepted();
    session.begin_poll();
    assert_eq!(session.handle_frame(None), Ok(None));
    assert_eq!(session.state(), SessionState::Connected);
}

#[test]
fn undecodable_frame_fails_the_session() {
    let mut session = Session::new();
    session.start_discovery();
    session.broadcast_sent();
    session.connection_accepted();
    session.begin_poll();
    let short = [0u8; 10];
    assert_eq!(session.handle_frame(Some(&short)), Err(Error::BufferTooShort));
    assert_eq!(session.state(), SessionState::Failed);
}

#[test]
fn io_failure_is_terminal() {
    let mut session = Session::new();
    session.start_discovery();
    session.io_failed();
    assert_eq!(session.state(), SessionState::Failed);
}

#[test]
fn outcomes_map_to_stream_elements() {
    let record = sample_record();
    assert_eq!(
        next_stream_item(PollOutcome::Record(record.clone())),
        StreamItem::Record(record)
    );
    assert_eq!(next_stream_item(PollOutcome::EndOfStream), StreamItem::Skip);
    assert_eq!(
        next_stream_item(PollOutcome::Failed(Error::Transport)),
        StreamItem::Terminal(Error::Transport)
    );
}

#[test]
fn endless_end_of_stream_yields_only_skips() {
    let outcomes = vec![
        PollOutcome::EndOfStream,
        PollOutcome::EndOfStream,
        PollOutcome::EndOfStream,
        PollOutcome::EndOfStream,
        PollOutcome::EndOfStream,
    ];
    let items = drive_all(outcomes);
    assert_eq!(items.len(), 5);
    assert!(items.iter().all(|item| *item == StreamItem::Skip));
}

#[test]
fn error_on_third_cycle_yields_two_records_then_terminal() {
    let record = sample_record();
    let outcomes = vec![
        PollOutcome::Record(record.clone()),
        PollOutcome::Record(record.clone()),
        PollOutcome::Failed(Error::Transport),
        PollOutcome::Record(record.clone()),
    ];
    let items = drive_all(outcomes);
    assert_eq!(
        items,
        vec![
            StreamItem::Record(record.clone()),
            StreamItem::Record(record),
            StreamItem::Terminal(Error::Transport),
        ]
    );
}

#[test]
fn skip_does_not_terminate_the_stream() {
    let record = sample_record();
    let outcomes = vec![
        PollOutcome::EndOfStream,
        PollOutcome::Record(record.clone()),
        PollOutcome::EndOfStream,
    ];
    let items = drive_all(outcomes);
    assert_eq!(
        items,
        vec![StreamItem::Skip, StreamItem::Record(record), StreamItem::Skip]
    );
}
