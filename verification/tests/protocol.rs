use echo_protocol::client::{client_display_line, strip_terminator};
use echo_protocol::connection::Connection;
use echo_protocol::errors::ProtocolError;
use echo_protocol::framing::{check_message, frame_message};
use echo_protocol::handler::{handler_step, HandlerAction};

#[test]
fn frame_appends_one_delimiter() {
    let wire = frame_message(&b"hello".to_vec());
    assert_eq!(wire, b"hello\n".to_vec());
}

#[test]
fn frame_empty_message() {
    let wire = frame_message(&b"".to_vec());
    assert_eq!(wire, b"\n".to_vec());
}

#[test]
fn round_trip_hello() {
    let mut conn = Connection::new();
    let wire = conn.send_message(&b"hello".to_vec());
    conn.feed(&wire);
    let got = conn.try_receive().unwrap().unwrap();
    assert_eq!(got, b"hello".to_vec());
}

#[test]
fn round_trip_empty_line() {
    let mut conn = Connection::new();
    let wire = conn.send_message(&b"".to_vec());
    conn.feed(&wire);
    let got = conn.try_receive().unwrap().unwrap();
    assert_eq!(got, b"".to_vec());
}

#[test]
fn round_trip_multi_kilobyte_line() {
    let message = vec![b'a'; 4096];
    let mut conn = Connection::new();
    let wire = conn.send_message(&message);
    assert_eq!(wire.len(), 4097);
    conn.feed(&wire);
    let got = conn.try_receive().unwrap().unwrap();
    assert_eq!(got, message);
}

#[test]
fn clean_close_returns_connection_closed() {
    let mut conn = Connection::new();
    conn.close_input();
    let r = conn.try_receive();
    assert_eq!(r, Err(ProtocolError::ConnectionClosed));
}

#[test]
fn close_with_partial_line_is_clean_close() {
    // A peer that vanishes mid-line must yield ConnectionClosed, never a
    // line with its last byte stripped.
    let mut conn = Connection::new();
    conn.feed(&b"abc".to_vec());
    conn.close_input();
    let r = conn.try_receive();
    assert_eq!(r, Err(ProtocolError::ConnectionClosed));
}

#[test]
fn incomplete_line_asks_for_more() {
    let mut conn = Connection::new();
    conn.feed(&b"par".to_vec());
    assert_eq!(conn.try_receive(), Ok(None));
    conn.feed(&b"tial\n".to_vec());
    let got = conn.try_receive().unwrap().unwrap();
    assert_eq!(got, b"partial".to_vec());
}

#[test]
fn two_messages_arrive_in_order() {
    let mut conn = Connection::new();
    conn.feed(&b"one\ntwo\n".to_vec());
    assert_eq!(conn.try_receive().unwrap().unwrap(), b"one".to_vec());
    assert_eq!(conn.try_receive().unwrap().unwrap(), b"two".to_vec());
    assert_eq!(conn.try_receive(), Ok(None));
}

#[test]
fn delimiter_split_across_chunks() {
    let mut conn = Connection::new();
    conn.feed(&b"abc".to_vec());
    conn.feed(&b"\ndef\n".to_vec());
    assert_eq!(conn.try_receive().unwrap().unwrap(), b"abc".to_vec());
    assert_eq!(conn.try_receive().unwrap().unwrap(), b"def".to_vec());
}

#[test]
fn buffered_line_still_delivered_after_close() {
    let mut conn = Connection::new();
    conn.feed(&b"last\n".to_vec());
    conn.close_input();
    assert_eq!(conn.try_receive().unwrap().unwrap(), b"last".to_vec());
    assert_eq!(conn.try_receive(), Err(ProtocolError::ConnectionClosed));
}

#[test]
fn check_message_accepts_plain_text() {
    assert!(check_message(&b"hello".to_vec()));
    assert!(check_message(&b"".to_vec()));
}

#[test]
fn check_message_rejects_embedded_delimiter() {
    assert!(!check_message(&b"he\nllo".to_vec()));
    assert!(!check_message(&b"\n".to_vec()));
}

#[test]
fn strip_terminator_drops_one_trailing_newline() {
    assert_eq!(strip_terminator(&b"hi\n".to_vec()), b"hi".to_vec());
    assert_eq!(strip_terminator(&b"hi\n\n".to_vec()), b"hi\n".to_vec());
}

#[test]
fn strip_terminator_keeps_unterminated_input() {
    assert_eq!(strip_terminator(&b"hi".to_vec()), b"hi".to_vec());
    assert_eq!(strip_terminator(&b"".to_vec()), b"".to_vec());
    assert_eq!(strip_terminator(&b"\n".to_vec()), b"".to_vec());
}

#[test]
fn handler_echoes_the_message() {
    let peer = b"127.0.0.1:2804".to_vec();
    let action = handler_step(&peer, Ok(b"hello".to_vec()));
    match action {
        HandlerAction::Reply { wire, log } => {
            assert_eq!(wire, b"hello\n".to_vec());
            assert_eq!(log, b"[127.0.0.1:2804] : hello".to_vec());
        }
        _ => panic!("expected a reply"),
    }
}

#[test]
fn handler_stops_quietly_on_clean_close() {
    let peer = b"127.0.0.1:2804".to_vec();
    let action = handler_step(&peer, Err(ProtocolError::ConnectionClosed));
    assert!(matches!(action, HandlerAction::StopQuiet));
}

#[test]
fn handler_reports_a_fault() {
    let peer = b"127.0.0.1:2804".to_vec();
    let action = handler_step(&peer, Err(ProtocolError::IOError));
    assert!(matches!(action, HandlerAction::StopError(ProtocolError::IOError)));
}

#[test]
fn error_descriptions() {
    assert_eq!(ProtocolError::ConnectionError.describe(), "connection error");
    assert_eq!(ProtocolError::TimeoutError.describe(), "connection timed out");
    assert_eq!(ProtocolError::IOError.describe(), "i/o error");
    assert_eq!(
        ProtocolError::ConnectionClosed.describe(),
        "connection closed by peer"
    );
}
