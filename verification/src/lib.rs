//! Decision logic of a local relay between a host application and two
//! network services: an Open Sound Control (OSC) endpoint reached over UDP
//! and a realtime speech service reached over a WebSocket.
//!
//! Sockets, tasks and locks live with the caller. This crate decides what is
//! sent, what is forwarded to the host and how the connection state changes,
//! and states each decision as a contract.

pub mod codec;
pub mod connection;
pub mod error;
pub mod forward;
pub mod handshake;
pub mod listener;
pub mod osc;
pub mod sender;
