//! Failures the realtime commands report to their caller.

use vstd::prelude::*;
use vstd::string::StringExecFns;

verus! {

/// Why a realtime command failed.
#[derive(Debug, Clone, PartialEq, Eq)]
pub enum RelayError {
    /// The connection could not be set up; the text says at which step and
    /// why.
    HandshakeFailure(String),
    /// A send or a close was asked for while no connection is held.
    NotConnected,
    /// Writing to the connection failed; the text says on which command and
    /// why.
    TransportFailure(String),
}

/// Mathematical value of a [`RelayError`].
pub enum RelayErrorView {
    HandshakeFailure(Seq<char>),
    NotConnected,
    TransportFailure(Seq<char>),
}

impl View for RelayError {
    type V = RelayErrorView;

    open spec fn view(&self) -> RelayErrorView {
        match self {
            RelayError::HandshakeFailure(why) => RelayErrorView::HandshakeFailure(why@),
            RelayError::NotConnected => RelayErrorView::NotConnected,
            RelayError::TransportFailure(why) => RelayErrorView::TransportFailure(why@),
        }
    }
}

/// The step of a command at which an outside failure was met.
#[derive(Debug, Clone, Copy, PartialEq, Eq, Structural)]
pub enum Stage {
    /// Parsing the service URL.
    ParseUrl,
    /// Building the upgrade request.
    BuildRequest,
    /// Opening the connection.
    Connect,
    /// Sending a text frame.
    Send,
    /// Sending the close frame.
    Close,
}

/// The words that introduce a failure met at `stage`.
pub open spec fn stage_prefix(stage: Stage) -> Seq<char> {
    match stage {
        Stage::ParseUrl => "Failed to parse URL: "@,
        Stage::BuildRequest => "Failed to build request: "@,
        Stage::Connect => "Failed to connect: "@,
        Stage::Send => "Failed to send message: "@,
        Stage::Close => "Failed to close connection: "@,
    }
}

/// The error for a failure met at `stage`, whose cause reads `why`: a
/// handshake failure up to the opening of the connection, a transport
/// failure once frames are written.
pub open spec fn failure_at(stage: Stage, why: Seq<char>) -> RelayErrorView {
    match stage {
        Stage::Send | Stage::Close => RelayErrorView::TransportFailure(stage_prefix(stage) + why),
        _ => RelayErrorView::HandshakeFailure(stage_prefix(stage) + why),
    }
}

/// The text shown to the caller for `error`.
pub open spec fn description_of(error: RelayErrorView) -> Seq<char> {
    match error {
        RelayErrorView::HandshakeFailure(why) => why,
        RelayErrorView::NotConnected => "WebSocket not connected"@,
        RelayErrorView::TransportFailure(why) => why,
    }
}

impl RelayError {
    /// Builds the error for a failure met at `stage`, whose cause reads
    /// `why`.
    pub fn at(stage: Stage, why: &str) -> (error: RelayError)
        ensures
            error@ == failure_at(stage, why@),
    {
        match stage {
            Stage::ParseUrl => RelayError::HandshakeFailure(
                String::from_str("Failed to parse URL: ").concat(why),
            ),
            Stage::BuildRequest => RelayError::HandshakeFailure(
                String::from_str("Failed to build request: ").concat(why),
            ),
            Stage::Connect => RelayError::HandshakeFailure(
                String::from_str("Failed to connect: ").concat(why),
            ),
            Stage::Send => RelayError::TransportFailure(
                String::from_str("Failed to send message: ").concat(why),
            ),
            Stage::Close => RelayError::TransportFailure(
                String::from_str("Failed to close connection: ").concat(why),
            ),
        }
    }

    /// The text shown to the caller.
    pub fn description(&self) -> (text: String)
        ensures
            text@ == description_of(self@),
    {
        match self {
            RelayError::HandshakeFailure(why) => why.clone(),
            RelayError::NotConnected => String::from_str("WebSocket not connected"),
            RelayError::TransportFailure(why) => why.clone(),
        }
    }
}

} // verus!
