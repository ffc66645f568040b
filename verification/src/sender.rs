//! The outbound side: the two chatbox messages and where they go.
//!
//! Each send is one datagram to a destination the caller names. This module
//! builds the datagram; the caller owns the socket.

use vstd::prelude::*;
use vstd::string::StringExecFns;
use crate::codec::{encode, osc_encoding};
use crate::osc::{OscMessage, OscMessageView, OscValue, OscValueView};

verus! {

/// Address of the typing indicator.
pub open spec fn typing_address() -> Seq<char> {
    "/chatbox/typing"@
}

/// Address of the chatbox text input.
pub open spec fn chat_address() -> Seq<char> {
    "/chatbox/input"@
}

/// The typing indicator: its address with the single argument `true`.
pub open spec fn typing_message_view() -> OscMessageView {
    OscMessageView { addr: typing_address(), args: seq![OscValueView::Bool(true)] }
}

/// A chatbox entry: its address with the text, then `true`.
pub open spec fn chat_message_view(text: Seq<char>) -> OscMessageView {
    OscMessageView {
        addr: chat_address(),
        args: seq![OscValueView::Text(text), OscValueView::Bool(true)],
    }
}

/// The text `address:port`.
pub open spec fn endpoint(address: Seq<char>, port: Seq<char>) -> Seq<char> {
    address + seq![':'] + port
}

/// Builds the typing indicator message.
pub fn typing_message() -> (msg: OscMessage)
    ensures
        msg@ == typing_message_view(),
{
    let mut args: Vec<OscValue> = Vec::new();
    args.push(OscValue::Bool(true));
    let msg = OscMessage { addr: String::from_str("/chatbox/typing"), args };
    assert(msg@.args =~= typing_message_view().args);
    msg
}

/// Builds the chatbox message that carries `text`.
pub fn chat_message(text: String) -> (msg: OscMessage)
    ensures
        msg@ == chat_message_view(text@),
{
    let ghost wanted = chat_message_view(text@);
    let mut args: Vec<OscValue> = Vec::new();
    args.push(OscValue::Text(text));
    args.push(OscValue::Bool(true));
    let msg = OscMessage { addr: String::from_str("/chatbox/input"), args };
    assert(msg@.args =~= wanted.args);
    msg
}

/// Joins a host and a port into the destination of a send.
pub fn destination(address: &str, port: &str) -> (dest: String)
    ensures
        dest@ == endpoint(address@, port@),
{
    proof {
        reveal_strlit(":");
    }
    let dest = String::from_str(address).concat(":").concat(port);
    assert(":"@ =~= seq![':']);
    dest
}

/// One datagram ready to be sent: its bytes and its destination.
#[derive(Debug, Clone, PartialEq, Eq)]
pub struct Datagram {
    pub payload: Vec<u8>,
    pub destination: String,
}

/// The datagram that tells `address:port` the user is typing.
pub fn typing_datagram(address: &str, port: &str) -> (datagram: Datagram)
    ensures
        datagram.payload@ == osc_encoding(typing_message_view()),
        datagram.destination@ == endpoint(address@, port@),
{
    let msg = typing_message();
    Datagram { payload: encode(&msg), destination: destination(address, port) }
}

/// The datagram that puts `text` into the chatbox at `address:port`.
pub fn chat_datagram(text: String, address: &str, port: &str) -> (datagram: Datagram)
    ensures
        datagram.payload@ == osc_encoding(chat_message_view(text@)),
        datagram.destination@ == endpoint(address@, port@),
{
    let msg = chat_message(text);
    Datagram { payload: encode(&msg), destination: destination(address, port) }
}

} // verus!
