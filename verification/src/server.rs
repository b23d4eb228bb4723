//! Routing decisions of the signaling server.
//!
//! Every connected client has a handler. A request from the client becomes an
//! update broadcast to all handlers; each handler turns an update into the
//! response its own client must receive, if any.
use vstd::prelude::*;

use crate::clients::{lists_other_clients, Clients};
use crate::protocol::{Request, Response};

verus! {

/// Failure of the signaling server.
#[derive(Debug, Clone, Copy, PartialEq, Eq, Structural)]
pub struct SignalingError;

impl SignalingError {
    /// The human-readable description of the error.
    pub fn message(&self) -> (r: String)
        ensures
            r@ == "Signaling server error"@,
    {
        "Signaling server error".to_owned()
    }
}

/// What handlers broadcast to each other.
#[derive(Debug, Clone)]
pub enum Update {
    /// The set of clients or their labels changed.
    ClientsChanged,
    /// Client `from` offers a call to client `to`.
    Offer { from: u32, to: u32, payload: rtc::peer_connection::sdp::RTCSessionDescription },
    /// Client `from` answers the offer of client `to`.
    Answer { from: u32, to: u32, payload: rtc::peer_connection::sdp::RTCSessionDescription },
    /// Client `from` sends an ICE candidate to client `to`.
    ICECandidate { from: u32, to: u32, candidate: rtc::peer_connection::transport::RTCIceCandidateInit },
}

/// The update that a request of client `from` is broadcast as.
pub open spec fn spec_route_request(from: u32, request: Request) -> Update {
    match request {
        Request::SetLabel(_) => Update::ClientsChanged,
        Request::WebRTCOffer { client_id, payload } => Update::Offer { from, to: client_id, payload },
        Request::WebRTCAnswer { client_id, payload } => Update::Answer { from, to: client_id, payload },
        Request::ICECandidate { client_id, candidate } =>
            Update::ICECandidate { from, to: client_id, candidate },
    }
}

/// The response that client `receiver` gets for a peer-to-peer update:
/// the update's content, naming its sender, when the update is addressed to
/// `receiver`, and nothing otherwise.
pub open spec fn spec_deliver(receiver: u32, update: Update) -> Option<Response> {
    match update {
        Update::ClientsChanged => None,
        Update::Offer { from, to, payload } =>
            if to == receiver { Some(Response::WebRTCOffer { client_id: from, payload }) } else { None },
        Update::Answer { from, to, payload } =>
            if to == receiver { Some(Response::WebRTCAnswer { client_id: from, payload }) } else { None },
        Update::ICECandidate { from, to, candidate } =>
            if to == receiver { Some(Response::ICECandidate { client_id: from, candidate }) } else { None },
    }
}

/// Handles a request of client `client_id`: a new label is recorded in the
/// registry; the request is turned into the update to broadcast.
pub fn handle_request(client_id: u32, clients: &mut Clients, request: Request) -> (update: Update)
    ensures
        update == spec_route_request(client_id, request),
        match request {
            Request::SetLabel(label) => {
                &&& final(clients).counter() == old(clients).counter()
                &&& final(clients).table() == old(clients).table().insert(client_id, Some(label@))
            },
            _ => *final(clients) == *old(clients),
        },
{
    match request {
        Request::SetLabel(label) => {
            clients.set_label(client_id, label);
            Update::ClientsChanged
        },
        Request::WebRTCOffer { client_id: to, payload } => Update::Offer { from: client_id, to, payload },
        Request::WebRTCAnswer { client_id: to, payload } => Update::Answer { from: client_id, to, payload },
        Request::ICECandidate { client_id: to, candidate } =>
            Update::ICECandidate { from: client_id, to, candidate },
    }
}

/// Ends the session of client `id`: it is forgotten, and the others must be
/// told that the client set changed.
pub fn client_left(clients: &mut Clients, id: u32) -> (update: Update)
    ensures
        update is ClientsChanged,
        final(clients).counter() == old(clients).counter(),
        final(clients).table() == old(clients).table().remove(id),
{
    clients.drop_client(id);
    Update::ClientsChanged
}

/// Handles an update on behalf of client `client_id`: a change of the client
/// set is answered with the fresh list of the other labelled clients; a
/// peer-to-peer update is passed on only if it is addressed to this client.
pub fn handle_update(client_id: u32, clients: &Clients, update: Update) -> (r: Option<Response>)
    ensures
        update is ClientsChanged ==> (r matches Some(Response::ClientList(list))
            && lists_other_clients(clients.table(), client_id, list@)),
        !(update is ClientsChanged) ==> r == spec_deliver(client_id, update),
{
    match update {
        Update::ClientsChanged => Some(Response::ClientList(clients.list_other_clients(client_id))),
        Update::Offer { from, to, payload } => {
            if to != client_id {
                return None;
            }
            Some(Response::WebRTCOffer { client_id: from, payload })
        },
        Update::Answer { from, to, payload } => {
            if to != client_id {
                return None;
            }
            Some(Response::WebRTCAnswer { client_id: from, payload })
        },
        Update::ICECandidate { from, to, candidate } => {
            if to != client_id {
                return None;
            }
            Some(Response::ICECandidate { client_id: from, candidate })
        },
    }
}

/// How requests are broadcast: a new label announces that the client set
/// changed; an offer, answer or ICE candidate of client `from` to client
/// `client_id` becomes the same kind of update from `from` to `client_id`,
/// carrying the same payload. A change of the client set is delivered to no
/// one by `spec_deliver` (it is answered with a fresh list instead).
pub proof fn lemma_route_request(from: u32, request: Request, receiver: u32)
    ensures
        request is SetLabel ==> spec_route_request(from, request) is ClientsChanged,
        request matches Request::WebRTCOffer { client_id, payload } ==> spec_route_request(from, request)
            == (Update::Offer { from, to: client_id, payload }),
        request matches Request::WebRTCAnswer { client_id, payload } ==> spec_route_request(from, request)
            == (Update::Answer { from, to: client_id, payload }),
        request matches Request::ICECandidate { client_id, candidate } ==> spec_route_request(from, request)
            == (Update::ICECandidate { from, to: client_id, candidate }),
        spec_deliver(receiver, Update::ClientsChanged) is None,
{
}

/// Signaling reaches exactly its addressee: an offer, answer or ICE candidate
/// that client `from` sends to client `to` is delivered to `to` as the same
/// payload naming `from` as its sender, and to no other client.
pub proof fn lemma_delivered_to_addressee_only(from: u32, to: u32, other: u32, request: Request)
    requires
        !(request is SetLabel),
        other != to,
        match request {
            Request::WebRTCOffer { client_id, .. } => client_id == to,
            Request::WebRTCAnswer { client_id, .. } => client_id == to,
            Request::ICECandidate { client_id, .. } => client_id == to,
            Request::SetLabel(_) => false,
        },
    ensures
        request matches Request::WebRTCOffer { payload, .. } ==> spec_deliver(to, spec_route_request(from, request))
            == Some(Response::WebRTCOffer { client_id: from, payload }),
        request matches Request::WebRTCAnswer { payload, .. } ==> spec_deliver(to, spec_route_request(from, request))
            == Some(Response::WebRTCAnswer { client_id: from, payload }),
        request matches Request::ICECandidate { candidate, .. } ==> spec_deliver(to, spec_route_request(from, request))
            == Some(Response::ICECandidate { client_id: from, candidate }),
        spec_deliver(other, spec_route_request(from, request)) is None,
{
}

} // verus!
