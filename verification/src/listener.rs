//! The inbound side: the single background receiver and what it forwards.
//!
//! The receiver is started at most once. It binds a fixed loopback port and
//! then takes datagrams one at a time; a mute report from the remote client
//! is forwarded to the host, everything else is dropped. The caller owns the
//! socket and the thread and feeds what happens on them to
//! [`receiver_step`].

use vstd::prelude::*;
use vstd::string::StringExecFns;
use crate::codec::{decode, osc_decoding, DecodeError};
use crate::osc::{OscEventView, OscPacket, OscPacketView, OscValue, OscValueView};

verus! {

/// Address on which the remote client reports its mute state.
pub open spec fn mute_address() -> Seq<char> {
    "/avatar/parameters/MuteSelf"@
}

/// The mute state a packet reports: the first argument of a message to
/// [`mute_address`], where that argument is a boolean.
pub open spec fn mute_of(packet: OscPacketView) -> Option<bool> {
    match packet {
        OscPacketView::Message(m) => {
            if m.addr == mute_address() && m.args.len() > 0 {
                match m.args[0] {
                    Some(OscValueView::Bool(b)) => Some(b),
                    _ => None,
                }
            } else {
                None
            }
        },
        OscPacketView::Bundle => None,
    }
}

/// The mute state a decoding outcome reports; a rejected datagram reports
/// none.
pub open spec fn mute_of_decoded(decoded: Option<OscPacketView>) -> Option<bool> {
    match decoded {
        Some(packet) => mute_of(packet),
        None => None,
    }
}

/// Picks out the mute state that `packet` reports, if any.
pub fn mute_signal(packet: &OscPacket) -> (mute: Option<bool>)
    ensures
        mute == mute_of(packet@),
{
    match packet {
        OscPacket::Message(m) => {
            let target = String::from_str("/avatar/parameters/MuteSelf");
            if m.addr == target && m.args.len() > 0 {
                match &m.args[0] {
                    Some(OscValue::Bool(b)) => Some(*b),
                    _ => None,
                }
            } else {
                None
            }
        },
        OscPacket::Bundle => None,
    }
}

/// What to forward for one decoding outcome: the mute state of a decoded
/// packet, nothing for a malformed datagram.
pub fn forward_decoded(decoded: &Result<OscPacket, DecodeError>) -> (mute: Option<bool>)
    ensures
        mute == match decoded {
            Ok(packet) => mute_of(packet@),
            Err(_) => None,
        },
{
    match decoded {
        Ok(packet) => mute_signal(packet),
        Err(_) => None,
    }
}

/// Decodes one datagram and picks out the mute state it reports, if any.
pub fn datagram_signal(datagram: &[u8]) -> (mute: Option<bool>)
    ensures
        mute == mute_of_decoded(osc_decoding(datagram@)),
{
    let decoded = decode(datagram);
    forward_decoded(&decoded)
}

/// One call of start on a guard in state `started`: the state afterwards,
/// and whether this call is the one that launches the receiver.
pub open spec fn start_step(started: bool) -> (bool, bool) {
    (true, !started)
}

/// How many of `calls` successive starts launch a receiver, beginning with
/// the guard in state `started`.
pub open spec fn launches(started: bool, calls: nat) -> nat
    decreases calls,
{
    if calls == 0 {
        0
    } else {
        let (next, launch) = start_step(started);
        (if launch { 1nat } else { 0nat }) + launches(next, (calls - 1) as nat)
    }
}

/// The guard that lets the receiver be started once.
#[derive(Debug)]
pub struct ListenerHandle {
    started: bool,
}

impl ListenerHandle {
    /// Whether a start has been made.
    pub closed spec fn is_started(&self) -> bool {
        self.started
    }

    /// A guard on which no start has been made.
    pub fn new() -> (handle: ListenerHandle)
        ensures
            !handle.is_started(),
    {
        ListenerHandle { started: false }
    }

    /// Whether a start has been made.
    pub fn started(&self) -> (started: bool)
        ensures
            started == self.is_started(),
    {
        self.started
    }

    /// Records a start. Returns `true` to the one caller that has to launch
    /// the receiver, and `false` to every later caller. The exclusive
    /// borrow makes the test and the update one step, so callers that share
    /// the guard behind a lock cannot both be told to launch.
    pub fn start(&mut self) -> (launch: bool)
        ensures
            (final(self).is_started(), launch) == start_step(old(self).is_started()),
    {
        let launch = !self.started;
        self.started = true;
        launch
    }
}

/// Where the background receiver stands.
#[derive(Debug, Clone, Copy, PartialEq, Eq, Structural)]
pub enum ReceiverState {
    /// Launched, socket not bound yet.
    Binding,
    /// Bound and taking datagrams.
    Receiving,
    /// Ended for good, by a failed bind or a failed receive.
    Terminated,
}

/// What happened on the receiver's socket.
#[derive(Debug, Clone, PartialEq, Eq)]
pub enum SocketEvent {
    /// The listening port was bound.
    Bound,
    /// The listening port could not be bound.
    BindFailed,
    /// One datagram arrived.
    Datagram(Vec<u8>),
    /// Receiving failed at the socket.
    ReceiveFailed,
}

/// Mathematical value of a [`SocketEvent`].
pub enum SocketEventView {
    Bound,
    BindFailed,
    Datagram(Seq<u8>),
    ReceiveFailed,
}

impl View for SocketEvent {
    type V = SocketEventView;

    open spec fn view(&self) -> SocketEventView {
        match self {
            SocketEvent::Bound => SocketEventView::Bound,
            SocketEvent::BindFailed => SocketEventView::BindFailed,
            SocketEvent::Datagram(bytes) => SocketEventView::Datagram(bytes@),
            SocketEvent::ReceiveFailed => SocketEventView::ReceiveFailed,
        }
    }
}

/// The receiver's answer to one socket event.
#[derive(Debug, Clone, Copy, PartialEq, Eq)]
pub struct Reaction {
    /// Where the receiver stands afterwards.
    pub next: ReceiverState,
    /// The mute state to forward to the host, if any.
    pub mute: Option<bool>,
}

/// The state after `event` arrives in `state`.
///
/// A bind outcome counts only while binding, a datagram or a receive failure
/// only while receiving; any other event leaves the state as it is. A
/// datagram never ends the receiver, whether it decodes or not.
pub open spec fn next_state(state: ReceiverState, event: SocketEventView) -> ReceiverState {
    match (state, event) {
        (ReceiverState::Binding, SocketEventView::Bound) => ReceiverState::Receiving,
        (ReceiverState::Binding, SocketEventView::BindFailed) => ReceiverState::Terminated,
        (ReceiverState::Receiving, SocketEventView::ReceiveFailed) => ReceiverState::Terminated,
        _ => state,
    }
}

/// The mute state forwarded when `event` arrives in `state`: that of a
/// datagram taken while receiving, and nothing otherwise.
pub open spec fn forwarded(state: ReceiverState, event: SocketEventView) -> Option<bool> {
    match (state, event) {
        (ReceiverState::Receiving, SocketEventView::Datagram(bytes)) => mute_of_decoded(
            osc_decoding(bytes),
        ),
        _ => None,
    }
}

/// Advances the receiver by one socket event.
pub fn receiver_step(state: ReceiverState, event: &SocketEvent) -> (reaction: Reaction)
    ensures
        reaction.next == next_state(state, event@),
        reaction.mute == forwarded(state, event@),
{
    match state {
        ReceiverState::Binding => match event {
            SocketEvent::Bound => Reaction { next: ReceiverState::Receiving, mute: None },
            SocketEvent::BindFailed => Reaction { next: ReceiverState::Terminated, mute: None },
            _ => Reaction { next: state, mute: None },
        },
        ReceiverState::Receiving => match event {
            SocketEvent::Datagram(bytes) => Reaction {
                next: ReceiverState::Receiving,
                mute: datagram_signal(bytes.as_slice()),
            },
            SocketEvent::ReceiveFailed => Reaction { next: ReceiverState::Terminated, mute: None },
            _ => Reaction { next: state, mute: None },
        },
        ReceiverState::Terminated => Reaction { next: state, mute: None },
    }
}

/// The local endpoint the receiver binds.
pub fn listen_endpoint() -> (endpoint: String)
    ensures
        endpoint@ == "127.0.0.1:9001"@,
{
    String::from_str("127.0.0.1:9001")
}

/// Name of the host event that carries a forwarded mute state.
pub fn mute_event_name() -> (name: String)
    ensures
        name@ == "vrchat-mute"@,
{
    String::from_str("vrchat-mute")
}

/// Successive starts launch the receiver exactly once: the first start on a
/// fresh guard launches it, and no number of further starts launches
/// another.
pub proof fn lemma_starts_launch_once(calls: nat)
    ensures
        launches(false, calls) == if calls == 0 { 0nat } else { 1nat },
        launches(true, calls) == 0,
    decreases calls,
{
    if calls > 0 {
        lemma_starts_launch_once((calls - 1) as nat);
    }
}

/// A message to the mute address whose first argument is the boolean `mute`
/// forwards exactly that state; a message to any other address forwards
/// nothing, whatever its arguments, and neither does a bundle.
pub proof fn lemma_only_mute_address_forwards(event: OscEventView, mute: bool)
    ensures
        event.addr == mute_address() && event.args.len() > 0 && event.args[0] == Some(
            OscValueView::Bool(mute),
        ) ==> mute_of(OscPacketView::Message(event)) == Some(mute),
        event.addr != mute_address() ==> mute_of(OscPacketView::Message(event)) is None,
        mute_of(OscPacketView::Bundle) is None,
{
}

} // verus!
