//! Open Sound Control messages as the relay sees them.
//!
//! The relay sends booleans and text and reads booleans; every other argument
//! type is carried as an argument it does not read.

use vstd::prelude::*;

verus! {

/// An argument value the relay can send and read.
#[derive(Debug, Clone, PartialEq, Eq)]
pub enum OscValue {
    Bool(bool),
    Text(String),
}

/// Mathematical value of an [`OscValue`].
pub enum OscValueView {
    Bool(bool),
    Text(Seq<char>),
}

impl View for OscValue {
    type V = OscValueView;

    open spec fn view(&self) -> OscValueView {
        match self {
            OscValue::Bool(b) => OscValueView::Bool(*b),
            OscValue::Text(s) => OscValueView::Text(s@),
        }
    }
}

/// Views of a list of outbound arguments.
pub open spec fn values_view(args: Seq<OscValue>) -> Seq<OscValueView> {
    args.map_values(|v: OscValue| v@)
}

/// View of one decoded argument: `None` stands for an argument of a type the
/// relay does not read.
pub open spec fn arg_view(arg: Option<OscValue>) -> Option<OscValueView> {
    match arg {
        Some(v) => Some(v@),
        None => None,
    }
}

/// Views of a list of decoded arguments.
pub open spec fn args_view(args: Seq<Option<OscValue>>) -> Seq<Option<OscValueView>> {
    args.map_values(|a: Option<OscValue>| arg_view(a))
}

/// An outbound message: an address pattern and its arguments in order.
#[derive(Debug, Clone, PartialEq, Eq)]
pub struct OscMessage {
    pub addr: String,
    pub args: Vec<OscValue>,
}

/// Mathematical value of an [`OscMessage`].
pub struct OscMessageView {
    pub addr: Seq<char>,
    pub args: Seq<OscValueView>,
}

impl View for OscMessage {
    type V = OscMessageView;

    open spec fn view(&self) -> OscMessageView {
        OscMessageView { addr: self.addr@, args: values_view(self.args@) }
    }
}

/// A decoded message: an address pattern and, for each argument in order,
/// its value where the relay reads that type.
#[derive(Debug, Clone, PartialEq, Eq)]
pub struct OscEvent {
    pub addr: String,
    pub args: Vec<Option<OscValue>>,
}

/// Mathematical value of an [`OscEvent`].
pub struct OscEventView {
    pub addr: Seq<char>,
    pub args: Seq<Option<OscValueView>>,
}

impl View for OscEvent {
    type V = OscEventView;

    open spec fn view(&self) -> OscEventView {
        OscEventView { addr: self.addr@, args: args_view(self.args@) }
    }
}

/// A decoded datagram: a single message, or a bundle, which the relay never
/// forwards.
#[derive(Debug, Clone, PartialEq, Eq)]
pub enum OscPacket {
    Message(OscEvent),
    Bundle,
}

/// Mathematical value of an [`OscPacket`].
pub enum OscPacketView {
    Message(OscEventView),
    Bundle,
}

impl View for OscPacket {
    type V = OscPacketView;

    open spec fn view(&self) -> OscPacketView {
        match self {
            OscPacket::Message(m) => OscPacketView::Message(m@),
            OscPacket::Bundle => OscPacketView::Bundle,
        }
    }
}

/// What a receiver decodes when `msg` arrives: the same address, and every
/// argument read.
pub open spec fn event_of(msg: OscMessageView) -> OscEventView {
    OscEventView { addr: msg.addr, args: msg.args.map_values(|v: OscValueView| Some(v)) }
}

impl OscMessage {
    /// The event a receiver decodes from this message.
    pub fn as_event(&self) -> (event: OscEvent)
        ensures
            event@ == event_of(self@),
    {
        let mut args: Vec<Option<OscValue>> = Vec::new();
        let mut i: usize = 0;
        while i < self.args.len()
            invariant
                i <= self.args.len(),
                args.len() == i,
                forall|j: int| 0 <= j < i ==> arg_view(#[trigger] args@[j]) == Some(self.args@[j]@),
            decreases self.args.len() - i,
        {
            let value = match &self.args[i] {
                OscValue::Bool(b) => OscValue::Bool(*b),
                OscValue::Text(s) => OscValue::Text(s.clone()),
            };
            args.push(Some(value));
            i += 1;
        }
        let event = OscEvent { addr: self.addr.clone(), args };
        assert(event@.args =~= event_of(self@).args);
        event
    }
}

} // verus!
