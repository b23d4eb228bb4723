use videocall::call::{CallAction, CallEvent, Role, VideoCall};
use videocall::lobby::{member_button_event, Lobby, LobbyAction, LobbyEvent};
use videocall::demo::{DemoAction, DemoApp};
use videocall::media::{
    chroma_extent, decode_next, media_step, DecodeAction, DecodeOutcome, MediaDecision, MediaInput,
    MediaStream,
};
use videocall::peer::{
    connection_result, state_signals, stats_due, trickle_outcome, ConnectionSignals, PeerState,
    StreamPoll, TrickleInput, TrickleStream, WebRTCError,
};
use videocall::protocol::ClientRef;
use videocall::signin::{Message, Signin};

#[test]
fn outgoing_call_flow() {
    let mut call = VideoCall::new();
    assert_eq!(call.active_caller(), None);
    assert_eq!(call.update(CallEvent::Call(7)), CallAction::Initiate { client_id: 7 });
    assert_eq!(call, VideoCall::Disconnected);
    assert_eq!(
        call.update(CallEvent::NewOutConnection { client_id: 7, role: Role::Initiator }),
        CallAction::SendOffer
    );
    assert_eq!(call.active_caller(), Some(7));
    assert_eq!(call.update(CallEvent::GotAnswer { client_id: 8 }), CallAction::Nothing);
    assert_eq!(call.update(CallEvent::GotAnswer { client_id: 7 }), CallAction::HandleAnswer);
    assert_eq!(call.update(CallEvent::AnswerReceived), CallAction::Trickle);
    assert_eq!(call.update(CallEvent::GotICECandidate { client_id: 7 }), CallAction::AddIceCandidate);
    assert_eq!(call.update(CallEvent::Connected), CallAction::StartMedia);
    assert_eq!(call, VideoCall::Connected { client_id: 7, role: Role::Initiator });
    assert_eq!(call.update(CallEvent::NewVideoFrame), CallAction::StoreFrame);
    assert_eq!(call.update(CallEvent::VideoBandwidthStats), CallAction::StoreBandwidth);
    assert_eq!(call.update(CallEvent::Disconnect), CallAction::Close);
    assert_eq!(call.active_caller(), Some(7));
    assert_eq!(call.update(CallEvent::Disconnected), CallAction::Nothing);
    assert_eq!(call, VideoCall::Disconnected);
    assert_eq!(call.active_caller(), None);
}

#[test]
fn incoming_call_flow() {
    let mut call = VideoCall::new();
    assert_eq!(call.update(CallEvent::GotOffer { client_id: 3 }), CallAction::Follow { client_id: 3 });
    assert_eq!(
        call.update(CallEvent::NewInConnection { client_id: 3, role: Role::Follower }),
        CallAction::SendAnswer
    );
    assert_eq!(call.update(CallEvent::GotAnswer { client_id: 3 }), CallAction::Nothing);
    assert_eq!(call.update(CallEvent::AnswerSent), CallAction::Trickle);
    assert_eq!(call.update(CallEvent::GotICECandidate { client_id: 4 }), CallAction::Nothing);
    assert_eq!(call.update(CallEvent::GotOffer { client_id: 9 }), CallAction::Nothing);
    assert_eq!(call, VideoCall::Connecting { client_id: 3, role: Role::Follower });
}

fn member(id: u32, label: &str) -> ClientRef {
    ClientRef { label: label.to_string(), id }
}

#[test]
fn lobby_flow() {
    let mut lobby = Lobby::new();
    assert_eq!(lobby.update(LobbyEvent::Members(vec![])), LobbyAction::Nothing);
    assert!(matches!(lobby, Lobby::Disconnected));
    assert_eq!(lobby.update(LobbyEvent::Connect { name: "ann".to_string() }), LobbyAction::Connect);
    assert!(matches!(&lobby, Lobby::Connecting { name } if name == "ann"));
    assert_eq!(lobby.update(LobbyEvent::Connected), LobbyAction::Listen);
    assert_eq!(lobby.update(LobbyEvent::Members(vec![member(2, "bo")])), LobbyAction::Nothing);
    match &lobby {
        Lobby::Connected { name, members, video_call } => {
            assert_eq!(name, "ann");
            assert_eq!(members.len(), 1);
            assert_eq!(members[0].id, 2);
            assert_eq!(*video_call, VideoCall::Disconnected);
        }
        _ => panic!("expected a connected lobby"),
    }
    assert_eq!(lobby.update(LobbyEvent::Error), LobbyAction::ReportError);
}

#[test]
fn lobby_relays_signaling_to_negotiating_peer() {
    let mut lobby = Lobby::new();
    lobby.update(LobbyEvent::Connect { name: "ann".to_string() });
    lobby.update(LobbyEvent::Connected);
    assert_eq!(lobby.update(LobbyEvent::VideoCall(CallEvent::SendOffer)), LobbyAction::Nothing);
    assert_eq!(
        lobby.update(LobbyEvent::VideoCall(CallEvent::Call(2))),
        LobbyAction::Call(CallAction::Initiate { client_id: 2 })
    );
    assert_eq!(
        lobby.update(LobbyEvent::VideoCall(CallEvent::NewOutConnection { client_id: 2, role: Role::Initiator })),
        LobbyAction::Call(CallAction::SendOffer)
    );
    assert_eq!(
        lobby.update(LobbyEvent::VideoCall(CallEvent::SendOffer)),
        LobbyAction::SendOffer { client_id: 2 }
    );
    assert_eq!(
        lobby.update(LobbyEvent::VideoCall(CallEvent::SendICECandidate)),
        LobbyAction::SendIceCandidate { client_id: 2 }
    );
    assert_eq!(
        lobby.update(LobbyEvent::VideoCall(CallEvent::SendAnswer)),
        LobbyAction::SendAnswer { client_id: 2 }
    );
}

#[test]
fn member_buttons() {
    assert_eq!(member_button_event(Some(4), 4), CallEvent::Disconnect);
    assert_eq!(member_button_event(Some(4), 5), CallEvent::Call(5));
    assert_eq!(member_button_event(None, 5), CallEvent::Call(5));
}

#[test]
fn signin_defaults_and_edits() {
    let mut form = Signin::default();
    assert_eq!(form.server_addr(), "127.0.0.1:8000");
    assert_eq!(form.name(), "");
    assert_eq!(form.error(), None);
    form.update(Message::Name("zoe".to_string()));
    form.update(Message::ServerAddr("10.0.0.1:9".to_string()));
    assert_eq!(form.name(), "zoe");
    assert_eq!(form.server_addr(), "10.0.0.1:9");
    form.update(Message::Error("oops".to_string()));
    assert_eq!(form.error(), Some("oops"));
    form.update(Message::Signin);
    assert_eq!(form.name(), "zoe");
}

#[test]
fn signin_validation() {
    let mut form = Signin::default();
    assert!(form.validate::<u16>(Err("invalid socket address syntax".to_string())).is_none());
    assert_eq!(form.error(), Some("invalid socket address syntax"));
    assert!(form.validate::<u16>(Ok(8000)).is_none());
    assert_eq!(form.error(), Some("Fill in your name"));
    form.update(Message::Name("zoe".to_string()));
    let ok = form.validate::<u16>(Ok(8000)).unwrap();
    assert_eq!(ok.server, 8000);
    assert_eq!(ok.name, "zoe");
}

#[test]
fn peer_state_decisions() {
    let s = state_signals(PeerState::Connected);
    assert!(s.connection_done && !s.disconnected);
    let s = state_signals(PeerState::Failed);
    assert!(s.connection_done && s.disconnected);
    let s = state_signals(PeerState::Connecting);
    assert!(!s.connection_done && !s.disconnected);
    assert_eq!(connection_result(PeerState::Connected), Ok(()));
    assert_eq!(connection_result(PeerState::Closed), Err(WebRTCError));
    assert_eq!(trickle_outcome(PeerState::Connected), Some(CallEvent::Connected));
    assert_eq!(trickle_outcome(PeerState::Disconnected), Some(CallEvent::Disconnected));
    assert_eq!(trickle_outcome(PeerState::New), None);
    assert_eq!(WebRTCError.message(), "WebRTC error");
}

#[test]
fn bandwidth_figures_every_second() {
    assert!(!stats_due(1000, 0));
    assert!(stats_due(1001, 0));
    assert!(!stats_due(5000, 4500));
}

#[test]
fn decoding_drains_before_feeding() {
    assert_eq!(decode_next(DecodeOutcome::Frame), DecodeAction::YieldFrame);
    assert_eq!(decode_next(DecodeOutcome::NoFrame), DecodeAction::PopSample);
    assert_eq!(decode_next(DecodeOutcome::Sample), DecodeAction::WriteSample);
    assert_eq!(decode_next(DecodeOutcome::Written), DecodeAction::ReadFrame);
    assert_eq!(decode_next(DecodeOutcome::WriteFailed), DecodeAction::YieldError);
    assert_eq!(decode_next(DecodeOutcome::NoSample), DecodeAction::NeedPackets);
}

#[test]
fn chroma_planes_are_half_size() {
    assert_eq!(chroma_extent(1280, 720), (640, 360));
    assert_eq!(chroma_extent(5, 3), (2, 1));
}

#[test]
fn trickle_stream_ends_after_first_settled_report() {
    let mut stream = TrickleStream::new();
    assert_eq!(stream.poll(TrickleInput::Candidate), StreamPoll::Item(CallEvent::SendICECandidate));
    assert_eq!(stream.poll(TrickleInput::Report(PeerState::Connecting)), StreamPoll::Pending);
    assert!(!stream.is_finished());
    assert_eq!(
        stream.poll(TrickleInput::Report(PeerState::Connected)),
        StreamPoll::Item(CallEvent::Connected)
    );
    assert!(stream.is_finished());
    assert_eq!(stream.poll(TrickleInput::Candidate), StreamPoll::Finished);
    assert_eq!(stream.poll(TrickleInput::Report(PeerState::Failed)), StreamPoll::Finished);

    let mut stream = TrickleStream::new();
    assert_eq!(
        stream.poll(TrickleInput::Report(PeerState::Closed)),
        StreamPoll::Item(CallEvent::Disconnected)
    );
    assert_eq!(stream.poll(TrickleInput::Candidate), StreamPoll::Finished);
}

#[test]
fn media_stream_ends_at_disconnect() {
    let mut stream = MediaStream::new();
    assert_eq!(stream.poll(CallEvent::NewVideoFrame), StreamPoll::Item(CallEvent::NewVideoFrame));
    assert_eq!(
        stream.poll(CallEvent::VideoBandwidthStats),
        StreamPoll::Item(CallEvent::VideoBandwidthStats)
    );
    assert!(!stream.is_finished());
    assert_eq!(stream.poll(CallEvent::Disconnected), StreamPoll::Item(CallEvent::Disconnected));
    assert!(stream.is_finished());
    assert_eq!(stream.poll(CallEvent::NewVideoFrame), StreamPoll::Finished);
}

#[test]
fn media_source_decisions() {
    assert_eq!(media_step(true, MediaInput::Frame), MediaDecision::Emit(CallEvent::NewVideoFrame));
    assert_eq!(media_step(true, MediaInput::FrameError), MediaDecision::Skip);
    assert_eq!(media_step(true, MediaInput::StreamEnd), MediaDecision::Emit(CallEvent::Disconnected));
    assert_eq!(
        media_step(true, MediaInput::DisconnectSignal),
        MediaDecision::Emit(CallEvent::Disconnected)
    );
    assert_eq!(media_step(false, MediaInput::NewTrack), MediaDecision::StartStream);
    assert_eq!(
        media_step(false, MediaInput::DisconnectSignal),
        MediaDecision::Emit(CallEvent::Disconnected)
    );
}

#[test]
fn connection_signals_keep_first_value() {
    let mut signals = ConnectionSignals::new();
    let set = signals.on_state_change(PeerState::Connecting);
    assert!(!set.connection_done && !set.disconnected);
    let set = signals.on_state_change(PeerState::Connected);
    assert!(set.connection_done && !set.disconnected);
    let set = signals.on_state_change(PeerState::Failed);
    assert!(!set.connection_done && set.disconnected);
    let set = signals.on_state_change(PeerState::Closed);
    assert!(!set.connection_done && !set.disconnected);
}

#[test]
fn screens_switch_on_accepted_signin() {
    let mut app = DemoApp::new();
    assert!(!app.in_lobby());
    let r = app.on_signin::<u16>(Message::Signin, Ok(8000));
    assert!(matches!(r, DemoAction::Nothing));
    match &app {
        DemoApp::Signin(form) => assert_eq!(form.error(), Some("Fill in your name")),
        DemoApp::Lobby => panic!("must stay on the form"),
    }
    assert!(matches!(app.on_signin::<u16>(Message::Name("kim".to_string()), Ok(8000)), DemoAction::Nothing));
    match app.on_signin::<u16>(Message::Signin, Ok(8000)) {
        DemoAction::Connect(v) => {
            assert_eq!(v.server, 8000);
            assert_eq!(v.name, "kim");
        }
        DemoAction::Nothing => panic!("expected a sign-in"),
    }
    assert!(app.in_lobby());
    assert!(matches!(app.on_signin::<u16>(Message::Signin, Ok(1)), DemoAction::Nothing));
    assert!(app.in_lobby());
}
