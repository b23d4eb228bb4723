use rtc::peer_connection::sdp::RTCSessionDescription;
use rtc::peer_connection::transport::RTCIceCandidateInit;
use videocall::clients::Clients;
use videocall::protocol::{ClientRef, Request, Response};
use videocall::server::{client_left, handle_request, handle_update, SignalingError, Update};

fn sdp(text: &str) -> RTCSessionDescription {
    let mut d = RTCSessionDescription::default();
    d.sdp = text.to_string();
    d
}

fn sorted(mut list: Vec<ClientRef>) -> Vec<(u32, String)> {
    list.sort_by_key(|c| c.id);
    list.into_iter().map(|c| (c.id, c.label)).collect()
}

#[test]
fn ids_count_up() {
    let mut clients = Clients::new();
    assert_eq!(clients.new_client(), 1);
    assert_eq!(clients.new_client(), 2);
    clients.drop_client(1);
    assert_eq!(clients.new_client(), 3);
}

#[test]
fn listing_excludes_self_and_unlabelled() {
    let mut clients = Clients::default();
    let a = clients.new_client();
    let b = clients.new_client();
    let c = clients.new_client();
    clients.set_label(a, "alice".to_string());
    clients.set_label(b, "bob".to_string());
    assert_eq!(sorted(clients.list_other_clients(a)), vec![(b, "bob".to_string())]);
    assert_eq!(
        sorted(clients.list_other_clients(c)),
        vec![(a, "alice".to_string()), (b, "bob".to_string())]
    );
}

#[test]
fn relabel_and_drop_show_in_listing() {
    let mut clients = Clients::new();
    let a = clients.new_client();
    let b = clients.new_client();
    clients.set_label(a, "alice".to_string());
    clients.set_label(a, "ally".to_string());
    assert_eq!(sorted(clients.list_other_clients(b)), vec![(a, "ally".to_string())]);
    clients.drop_client(a);
    assert!(clients.list_other_clients(b).is_empty());
}

#[test]
fn set_label_request_updates_registry() {
    let mut clients = Clients::new();
    let a = clients.new_client();
    let b = clients.new_client();
    let update = handle_request(a, &mut clients, Request::SetLabel("alice".to_string()));
    assert!(matches!(update, Update::ClientsChanged));
    match handle_update(b, &clients, update) {
        Some(Response::ClientList(list)) => assert_eq!(sorted(list), vec![(a, "alice".to_string())]),
        _ => panic!("expected a client list"),
    }
}

#[test]
fn offer_reaches_addressee_only() {
    let mut clients = Clients::new();
    let update = handle_request(1, &mut clients, Request::WebRTCOffer { client_id: 2, payload: sdp("v=0") });
    match &update {
        Update::Offer { from, to, payload } => {
            assert_eq!((*from, *to), (1, 2));
            assert_eq!(payload.sdp, "v=0");
        }
        _ => panic!("expected an offer"),
    }
    assert!(handle_update(3, &clients, update.clone()).is_none());
    match handle_update(2, &clients, update) {
        Some(Response::WebRTCOffer { client_id, payload }) => {
            assert_eq!(client_id, 1);
            assert_eq!(payload.sdp, "v=0");
        }
        _ => panic!("expected the offer"),
    }
}

#[test]
fn answer_and_candidate_are_routed() {
    let mut clients = Clients::new();
    let answer = handle_request(5, &mut clients, Request::WebRTCAnswer { client_id: 6, payload: sdp("ans") });
    match handle_update(6, &clients, answer) {
        Some(Response::WebRTCAnswer { client_id, payload }) => {
            assert_eq!(client_id, 5);
            assert_eq!(payload.sdp, "ans");
        }
        _ => panic!("expected the answer"),
    }
    let mut cand = RTCIceCandidateInit::default();
    cand.candidate = "candidate:1".to_string();
    let update = handle_request(5, &mut clients, Request::ICECandidate { client_id: 6, candidate: cand });
    assert!(handle_update(5, &clients, update.clone()).is_none());
    match handle_update(6, &clients, update) {
        Some(Response::ICECandidate { client_id, candidate }) => {
            assert_eq!(client_id, 5);
            assert_eq!(candidate.candidate, "candidate:1");
        }
        _ => panic!("expected the candidate"),
    }
}

#[test]
fn signaling_error_message() {
    assert_eq!(SignalingError.message(), "Signaling server error");
}

#[test]
fn leaving_client_is_announced_and_forgotten() {
    let mut clients = Clients::new();
    let a = clients.new_client();
    let b = clients.new_client();
    clients.set_label(a, "alice".to_string());
    let update = client_left(&mut clients, a);
    assert!(matches!(update, Update::ClientsChanged));
    match handle_update(b, &clients, update) {
        Some(Response::ClientList(list)) => assert!(list.is_empty()),
        _ => panic!("expected a client list"),
    }
    assert_eq!(clients.last_id(), 2);
}
