//! Verified core of a real-time video calling demo: the length-prefixed
//! signaling wire format, the signaling server's client registry and message
//! routing, and the state machines that drive sign-in, the lobby and a call.
pub mod call;
pub mod clients;
pub mod demo;
pub mod framing;
pub mod lobby;
pub mod media;
mod outside;
pub mod peer;
pub mod protocol;
pub mod server;
pub mod signin;
