//! The datagram codec: OSC messages to and from their wire bytes.
//!
//! The wire format is the `rosc` crate's. Its two entry points are called
//! through the trusted wrappers below; what they return is named by
//! [`osc_encoding`] and [`osc_decoding`], and the rest of the crate is
//! verified against those names.

use vstd::prelude::*;
use vstd::pervasive::unreached;
use crate::osc::{OscEvent, OscMessage, OscMessageView, OscPacket, OscPacketView, OscValue};

verus! {

/// The error type of `rosc`, carried through without being read.
#[verifier::external_type_specification]
#[verifier::external_body]
pub struct ExOscError(rosc::OscError);

/// The bytes `rosc::encoder::encode` produces for the message `msg`.
pub uninterp spec fn osc_encoding(msg: OscMessageView) -> Seq<u8>;

/// What `rosc::decoder::decode_udp` makes of `datagram`: the packet it
/// decodes, as far as the relay reads it, or `None` where it rejects the
/// bytes.
pub uninterp spec fn osc_decoding(datagram: Seq<u8>) -> Option<OscPacketView>;

/// Calls `rosc::encoder::encode` on the message `msg`.
///
/// Trusted: the result is the encoder's output for that message, and it is
/// always `Ok`. The encoder writes into a `Vec`, whose write error type is
/// `Infallible`, and returns `Ok` after writing.
#[verifier::external_body]
fn rosc_encode(msg: &OscMessage) -> (r: Result<Vec<u8>, rosc::OscError>)
    ensures
        r is Ok,
        r->Ok_0@ == osc_encoding(msg@),
{
    let args = msg.args.iter().map(|v| match v {
        OscValue::Bool(b) => rosc::OscType::Bool(*b),
        OscValue::Text(s) => rosc::OscType::String(s.clone()),
    }).collect();
    rosc::encoder::encode(&rosc::OscPacket::Message(rosc::OscMessage { addr: msg.addr.clone(), args }))
}

/// Calls `rosc::decoder::decode_udp` on `datagram` and drops the bytes that
/// follow the packet.
///
/// Trusted: the result is the decoder's, with each boolean and string
/// argument kept and every other argument marked as not read; a bundle is
/// reported without its content.
#[verifier::external_body]
fn rosc_decode(datagram: &[u8]) -> (r: Result<OscPacket, rosc::OscError>)
    ensures
        match r {
            Ok(packet) => osc_decoding(datagram@) == Some(packet@),
            Err(_) => osc_decoding(datagram@) is None,
        },
{
    match rosc::decoder::decode_udp(datagram) {
        Ok((_, rosc::OscPacket::Message(m))) => Ok(OscPacket::Message(OscEvent {
            addr: m.addr,
            args: m.args.into_iter().map(|a| match a {
                rosc::OscType::Bool(b) => Some(OscValue::Bool(b)),
                rosc::OscType::String(s) => Some(OscValue::Text(s)),
                _ => None,
            }).collect(),
        })),
        Ok((_, rosc::OscPacket::Bundle(_))) => Ok(OscPacket::Bundle),
        Err(e) => Err(e),
    }
}

/// Why a datagram could not be decoded.
#[derive(Debug, Clone, Copy, PartialEq, Eq)]
pub enum DecodeError {
    /// The bytes do not conform to the wire grammar.
    MalformedPacket,
}

/// Encodes `msg` into the bytes of one datagram.
pub fn encode(msg: &OscMessage) -> (bytes: Vec<u8>)
    ensures
        bytes@ == osc_encoding(msg@),
{
    match rosc_encode(msg) {
        Ok(bytes) => bytes,
        Err(_) => unreached(),
    }
}

/// Decodes one datagram.
///
/// Succeeds exactly on the datagrams the wire grammar accepts, with the
/// packet they hold; every other datagram is a `MalformedPacket`.
pub fn decode(datagram: &[u8]) -> (r: Result<OscPacket, DecodeError>)
    ensures
        match osc_decoding(datagram@) {
            Some(packet) => r matches Ok(p) && p@ == packet,
            None => r matches Err(DecodeError::MalformedPacket),
        },
{
    match rosc_decode(datagram) {
        Ok(packet) => Ok(packet),
        Err(_) => Err(DecodeError::MalformedPacket),
    }
}

} // verus!
