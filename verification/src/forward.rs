//! The forwarding task: what each item from the receive half means for the
//! host.
//!
//! The task owns the receive half for its whole life. The caller reads one
//! item at a time and asks [`forward_step`] what to emit and whether to go
//! on.

use vstd::prelude::*;
use vstd::string::StringExecFns;

verus! {

/// One item read from the receive half.
#[derive(Debug, Clone, PartialEq, Eq)]
pub enum Inbound {
    /// A text frame.
    Text(String),
    /// A close frame.
    Close,
    /// A frame of any other kind.
    Other,
    /// A read error, with its description.
    Failed(String),
    /// The stream has ended.
    Ended,
}

/// Mathematical value of an [`Inbound`].
pub enum InboundView {
    Text(Seq<char>),
    Close,
    Other,
    Failed(Seq<char>),
    Ended,
}

impl View for Inbound {
    type V = InboundView;

    open spec fn view(&self) -> InboundView {
        match self {
            Inbound::Text(text) => InboundView::Text(text@),
            Inbound::Close => InboundView::Close,
            Inbound::Other => InboundView::Other,
            Inbound::Failed(why) => InboundView::Failed(why@),
            Inbound::Ended => InboundView::Ended,
        }
    }
}

/// A notification pushed to the host.
#[derive(Debug, Clone, PartialEq, Eq)]
pub enum RelayEvent {
    /// The text of one frame from the service.
    Message(String),
    /// The service closed the connection.
    Close,
    /// Reading from the connection failed.
    Error(String),
}

/// Mathematical value of a [`RelayEvent`].
pub enum RelayEventView {
    Message(Seq<char>),
    Close,
    Error(Seq<char>),
}

impl View for RelayEvent {
    type V = RelayEventView;

    open spec fn view(&self) -> RelayEventView {
        match self {
            RelayEvent::Message(text) => RelayEventView::Message(text@),
            RelayEvent::Close => RelayEventView::Close,
            RelayEvent::Error(why) => RelayEventView::Error(why@),
        }
    }
}

/// The name under which the host receives `event`.
pub open spec fn event_name_of(event: RelayEventView) -> Seq<char> {
    match event {
        RelayEventView::Message(_) => "realtime-message"@,
        RelayEventView::Close => "realtime-close"@,
        RelayEventView::Error(_) => "realtime-error"@,
    }
}

impl RelayEvent {
    /// The name under which the host receives this event.
    pub fn name(&self) -> (name: String)
        ensures
            name@ == event_name_of(self@),
    {
        match self {
            RelayEvent::Message(_) => String::from_str("realtime-message"),
            RelayEvent::Close => String::from_str("realtime-close"),
            RelayEvent::Error(_) => String::from_str("realtime-error"),
        }
    }
}

/// What the task does with one item.
#[derive(Debug, Clone, PartialEq, Eq)]
pub struct Forwarding {
    /// The event to emit, if any.
    pub event: Option<RelayEvent>,
    /// Whether the task ends after this item.
    pub done: bool,
}

/// The event emitted for `inbound`: the text of a text frame, a close for a
/// close frame, the description of a read error, and nothing otherwise.
pub open spec fn emitted(inbound: InboundView) -> Option<RelayEventView> {
    match inbound {
        InboundView::Text(text) => Some(RelayEventView::Message(text)),
        InboundView::Close => Some(RelayEventView::Close),
        InboundView::Failed(why) => Some(RelayEventView::Error(why)),
        InboundView::Other => None,
        InboundView::Ended => None,
    }
}

/// Whether the task ends with `inbound`: it does on a close frame, on a
/// read error and at the end of the stream, and goes on after every other
/// frame.
pub open spec fn ends_task(inbound: InboundView) -> bool {
    inbound is Close || inbound is Failed || inbound is Ended
}

/// Mathematical value of an optional event.
pub open spec fn event_view(event: Option<RelayEvent>) -> Option<RelayEventView> {
    match event {
        Some(e) => Some(e@),
        None => None,
    }
}

/// Decides what to emit for one item from the receive half, and whether
/// the task ends with it.
pub fn forward_step(inbound: Inbound) -> (step: Forwarding)
    ensures
        event_view(step.event) == emitted(inbound@),
        step.done == ends_task(inbound@),
{
    match inbound {
        Inbound::Text(text) => Forwarding { event: Some(RelayEvent::Message(text)), done: false },
        Inbound::Close => Forwarding { event: Some(RelayEvent::Close), done: true },
        Inbound::Failed(why) => Forwarding { event: Some(RelayEvent::Error(why)), done: true },
        Inbound::Other => Forwarding { event: None, done: false },
        Inbound::Ended => Forwarding { event: None, done: true },
    }
}

} // verus!
