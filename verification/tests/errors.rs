use net_relay::error::{RelayError, Stage};

#[test]
fn failures_up_to_connect_are_handshake_failures() {
    assert_eq!(
        RelayError::at(Stage::ParseUrl, "invalid format"),
        RelayError::HandshakeFailure("Failed to parse URL: invalid format".to_string())
    );
    assert_eq!(
        RelayError::at(Stage::BuildRequest, "bad header"),
        RelayError::HandshakeFailure("Failed to build request: bad header".to_string())
    );
    assert_eq!(
        RelayError::at(Stage::Connect, "HTTP error: 401 Unauthorized"),
        RelayError::HandshakeFailure("Failed to connect: HTTP error: 401 Unauthorized".to_string())
    );
}

#[test]
fn failures_of_writes_are_transport_failures() {
    assert_eq!(
        RelayError::at(Stage::Send, "closed"),
        RelayError::TransportFailure("Failed to send message: closed".to_string())
    );
    assert_eq!(
        RelayError::at(Stage::Close, "closed"),
        RelayError::TransportFailure("Failed to close connection: closed".to_string())
    );
}

#[test]
fn failure_with_empty_cause_keeps_prefix() {
    assert_eq!(
        RelayError::at(Stage::Send, ""),
        RelayError::TransportFailure("Failed to send message: ".to_string())
    );
}

#[test]
fn descriptions() {
    assert_eq!(RelayError::NotConnected.description(), "WebSocket not connected");
    assert_eq!(
        RelayError::HandshakeFailure("Missing authority in URL".to_string()).description(),
        "Missing authority in URL"
    );
    assert_eq!(
        RelayError::at(Stage::Send, "closed").description(),
        "Failed to send message: closed"
    );
}
