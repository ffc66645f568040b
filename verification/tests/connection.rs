use net_relay::connection::{ConnectionState, Frame};
use net_relay::error::RelayError;

/// A send half that keeps what was written to it.
#[derive(Debug, PartialEq, Eq)]
struct Wire {
    id: u32,
    written: Vec<Frame>,
}

fn wire(id: u32) -> Wire {
    Wire { id, written: Vec::new() }
}

fn send(state: &mut ConnectionState<Wire>, text: &str) -> Result<(), RelayError> {
    let mut out = state.begin_send(text.to_string())?;
    out.half.written.push(out.frame);
    state.finish_send(out.half, Ok(()))
}

#[test]
fn send_before_connect_is_not_connected() {
    let mut state: ConnectionState<Wire> = ConnectionState::new();
    assert!(!state.is_connected());
    assert_eq!(state.begin_send("x".to_string()).err(), Some(RelayError::NotConnected));
    assert!(!state.is_connected());
}

#[test]
fn close_before_connect_is_not_connected() {
    let mut state: ConnectionState<Wire> = ConnectionState::new();
    assert_eq!(state.begin_close().err(), Some(RelayError::NotConnected));
    assert!(!state.is_connected());
}

#[test]
fn failed_connect_leaves_state_empty() {
    let mut state: ConnectionState<Wire> = ConnectionState::new();
    let report = state.finish_connect(Err("refused".to_string()));
    assert_eq!(
        report,
        Err(RelayError::HandshakeFailure("Failed to connect: refused".to_string()))
    );
    assert!(!state.is_connected());
    assert_eq!(state.begin_send("x".to_string()).err(), Some(RelayError::NotConnected));
}

#[test]
fn failed_connect_keeps_earlier_connection() {
    let mut state = ConnectionState::new();
    assert_eq!(state.finish_connect(Ok(wire(1))), Ok(()));
    assert!(state.finish_connect(Err("refused".to_string())).is_err());
    let out = state.begin_send("x".to_string()).unwrap();
    assert_eq!(out.half.id, 1);
}

#[test]
fn sends_reach_the_wire_in_call_order() {
    let mut state = ConnectionState::new();
    assert_eq!(state.finish_connect(Ok(wire(1))), Ok(()));
    assert_eq!(send(&mut state, "x"), Ok(()));
    assert_eq!(send(&mut state, "y"), Ok(()));
    let out = state.begin_close().unwrap();
    assert_eq!(out.half.id, 1);
    assert_eq!(
        out.half.written,
        vec![Frame::Text("x".to_string()), Frame::Text("y".to_string())]
    );
    assert_eq!(out.frame, Frame::Close);
}

#[test]
fn send_after_close_is_not_connected() {
    let mut state = ConnectionState::new();
    assert_eq!(state.finish_connect(Ok(wire(1))), Ok(()));
    let out = state.begin_close().unwrap();
    assert_eq!(out.frame, Frame::Close);
    assert_eq!(state.finish_close(out.half, Ok(())), Ok(()));
    assert!(!state.is_connected());
    assert_eq!(send(&mut state, "x"), Err(RelayError::NotConnected));
    assert_eq!(state.begin_close().err(), Some(RelayError::NotConnected));
}

#[test]
fn failed_send_puts_the_half_back() {
    let mut state = ConnectionState::new();
    assert_eq!(state.finish_connect(Ok(wire(7))), Ok(()));
    let out = state.begin_send("x".to_string()).unwrap();
    assert_eq!(out.frame, Frame::Text("x".to_string()));
    let report = state.finish_send(out.half, Err("broken pipe".to_string()));
    assert_eq!(
        report,
        Err(RelayError::TransportFailure("Failed to send message: broken pipe".to_string()))
    );
    assert!(state.is_connected());
    assert_eq!(send(&mut state, "again"), Ok(()));
}

#[test]
fn second_writer_finds_no_half_while_one_is_out() {
    let mut state = ConnectionState::new();
    assert_eq!(state.finish_connect(Ok(wire(1))), Ok(()));
    let out = state.begin_send("x".to_string()).unwrap();
    assert!(!state.is_connected());
    assert_eq!(state.begin_send("y".to_string()).err(), Some(RelayError::NotConnected));
    assert_eq!(state.begin_close().err(), Some(RelayError::NotConnected));
    assert_eq!(state.finish_send(out.half, Ok(())), Ok(()));
    assert!(state.is_connected());
}

#[test]
fn new_connection_takes_the_place_of_the_old() {
    let mut state = ConnectionState::new();
    assert_eq!(state.finish_connect(Ok(wire(1))), Ok(()));
    assert_eq!(state.finish_connect(Ok(wire(2))), Ok(()));
    let out = state.begin_send("x".to_string()).unwrap();
    assert_eq!(out.half.id, 2);
}

#[test]
fn failed_close_is_a_transport_failure_and_gives_the_half_up() {
    let mut state = ConnectionState::new();
    assert_eq!(state.finish_connect(Ok(wire(1))), Ok(()));
    let out = state.begin_close().unwrap();
    assert_eq!(
        state.finish_close(out.half, Err("reset".to_string())),
        Err(RelayError::TransportFailure("Failed to close connection: reset".to_string()))
    );
    assert!(!state.is_connected());
}

#[test]
fn end_of_close_leaves_a_newer_connection_alone() {
    let mut state = ConnectionState::new();
    assert_eq!(state.finish_connect(Ok(wire(1))), Ok(()));
    let out = state.begin_close().unwrap();
    assert_eq!(state.finish_connect(Ok(wire(2))), Ok(()));
    assert_eq!(state.finish_close(out.half, Ok(())), Ok(()));
    let out = state.begin_send("x".to_string()).unwrap();
    assert_eq!(out.half.id, 2);
}
