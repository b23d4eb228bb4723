//! Messages exchanged between the signaling server and its clients.
//!
//! WebRTC session descriptions and ICE candidates are carried through
//! unchanged; the signaling logic only reads the client ids around them.
use vstd::prelude::*;


verus! {

/// A client known to the server, as shown to the other clients.
#[derive(Clone, Debug)]
pub struct ClientRef {
    pub label: String,
    pub id: u32,
}

/// What the server sends to a client.
#[derive(Debug)]
pub enum Response {
    /// The labelled clients other than the receiver.
    ClientList(Vec<ClientRef>),
    /// The client `client_id` offers a call.
    WebRTCOffer { client_id: u32, payload: rtc::peer_connection::sdp::RTCSessionDescription },
    /// The client `client_id` answers the receiver's offer.
    WebRTCAnswer { client_id: u32, payload: rtc::peer_connection::sdp::RTCSessionDescription },
    /// The client `client_id` sends an ICE candidate.
    ICECandidate { client_id: u32, candidate: rtc::peer_connection::transport::RTCIceCandidateInit },
}

/// What a client sends to the server.
#[derive(Debug)]
pub enum Request {
    /// Show the sender under this label.
    SetLabel(String),
    /// Offer a call to `client_id`.
    WebRTCOffer { client_id: u32, payload: rtc::peer_connection::sdp::RTCSessionDescription },
    /// Answer the offer of `client_id`.
    WebRTCAnswer { client_id: u32, payload: rtc::peer_connection::sdp::RTCSessionDescription },
    /// Send an ICE candidate to `client_id`.
    ICECandidate { client_id: u32, candidate: rtc::peer_connection::transport::RTCIceCandidateInit },
}

} // verus!
