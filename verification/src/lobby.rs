//! The lobby: connecting to the signaling server, the list of other users,
//! and relaying a call's signaling to the server.
use vstd::prelude::*;

use crate::call::{spec_active_caller, spec_call_step, CallAction, CallEvent, VideoCall};
use crate::protocol::ClientRef;

verus! {

/// Phase of the lobby. The connection objects live with the caller.
pub enum Lobby {
    /// Not connected to the signaling server.
    Disconnected,
    /// Connecting to the signaling server as `name`.
    Connecting { name: String },
    /// Connected as `name`, seeing `members`, with the state of our call.
    Connected { name: String, members: Vec<ClientRef>, video_call: VideoCall },
}

/// What happened, as far as the lobby's decisions are concerned.
pub enum LobbyEvent {
    /// The user signed in as `name`.
    Connect { name: String },
    /// The signaling connection is up and labelled.
    Connected,
    /// The server sent the current list of other users.
    Members(Vec<ClientRef>),
    /// An event of the call.
    VideoCall(CallEvent),
    /// Something failed.
    Error,
}

/// The work that a lobby event calls for.
#[derive(Debug, Clone, Copy, PartialEq, Eq, Structural)]
pub enum LobbyAction {
    /// Nothing to do.
    Nothing,
    /// Connect to the signaling server and send our label.
    Connect,
    /// Start the call machinery and listen for the server's responses.
    Listen,
    /// Report the error.
    ReportError,
    /// Send the call's offer to `client_id` through the server.
    SendOffer { client_id: u32 },
    /// Send the call's answer to `client_id` through the server.
    SendAnswer { client_id: u32 },
    /// Send a local ICE candidate to `client_id` through the server.
    SendIceCandidate { client_id: u32 },
    /// Perform the call's own action.
    Call(CallAction),
}

/// The peer of a call under negotiation, if the call is negotiating.
pub open spec fn spec_negotiating_with(call: VideoCall) -> Option<u32> {
    match call {
        VideoCall::Connecting { client_id, .. } => Some(client_id),
        _ => None,
    }
}

/// The lobby as a mathematical value.
pub enum LobbyView {
    Disconnected,
    Connecting { name: Seq<char> },
    Connected { name: Seq<char>, members: Seq<ClientRef>, video_call: VideoCall },
}

/// A lobby event as a mathematical value.
pub enum LobbyEventView {
    Connect { name: Seq<char> },
    Connected,
    Members(Seq<ClientRef>),
    VideoCall(CallEvent),
    Error,
}

impl View for Lobby {
    type V = LobbyView;

    open spec fn view(&self) -> LobbyView {
        match self {
            Lobby::Disconnected => LobbyView::Disconnected,
            Lobby::Connecting { name } => LobbyView::Connecting { name: name@ },
            Lobby::Connected { name, members, video_call } => LobbyView::Connected {
                name: name@,
                members: members@,
                video_call: *video_call,
            },
        }
    }
}

impl View for LobbyEvent {
    type V = LobbyEventView;

    open spec fn view(&self) -> LobbyEventView {
        match self {
            LobbyEvent::Connect { name } => LobbyEventView::Connect { name: name@ },
            LobbyEvent::Connected => LobbyEventView::Connected,
            LobbyEvent::Members(members) => LobbyEventView::Members(members@),
            LobbyEvent::VideoCall(e) => LobbyEventView::VideoCall(*e),
            LobbyEvent::Error => LobbyEventView::Error,
        }
    }
}

/// The transition table of the lobby.
pub open spec fn spec_lobby_step(lobby: LobbyView, event: LobbyEventView) -> (LobbyView, LobbyAction) {
    match lobby {
        LobbyView::Disconnected => match event {
            LobbyEventView::Connect { name } => (LobbyView::Connecting { name }, LobbyAction::Connect),
            _ => (lobby, LobbyAction::Nothing),
        },
        LobbyView::Connecting { name } => match event {
            LobbyEventView::Connected => (
                LobbyView::Connected { name, members: Seq::empty(), video_call: VideoCall::Disconnected },
                LobbyAction::Listen,
            ),
            _ => (lobby, LobbyAction::Nothing),
        },
        LobbyView::Connected { name, members, video_call } => match event {
            LobbyEventView::Members(new_members) =>
                (LobbyView::Connected { name, members: new_members, video_call }, LobbyAction::Nothing),
            LobbyEventView::Error => (lobby, LobbyAction::ReportError),
            LobbyEventView::VideoCall(call_event) => match call_event {
                CallEvent::SendOffer => match spec_negotiating_with(video_call) {
                    Some(client_id) => (lobby, LobbyAction::SendOffer { client_id }),
                    None => (lobby, LobbyAction::Nothing),
                },
                CallEvent::SendAnswer => match spec_negotiating_with(video_call) {
                    Some(client_id) => (lobby, LobbyAction::SendAnswer { client_id }),
                    None => (lobby, LobbyAction::Nothing),
                },
                CallEvent::SendICECandidate => match spec_negotiating_with(video_call) {
                    Some(client_id) => (lobby, LobbyAction::SendIceCandidate { client_id }),
                    None => (lobby, LobbyAction::Nothing),
                },
                _ => (
                    LobbyView::Connected { name, members, video_call: spec_call_step(video_call, call_event).0 },
                    LobbyAction::Call(spec_call_step(video_call, call_event).1),
                ),
            },
            _ => (lobby, LobbyAction::Nothing),
        },
    }
}

impl Lobby {
    /// A lobby not yet connected.
    pub fn new() -> (r: Lobby)
        ensures
            r@ == LobbyView::Disconnected,
    {
        Lobby::Disconnected
    }

    /// Moves the lobby on by one event and returns the work to perform.
    pub fn update(&mut self, event: LobbyEvent) -> (action: LobbyAction)
        ensures
            (final(self)@, action) == spec_lobby_step(old(self)@, event@),
    {
        let mut lobby = Lobby::Disconnected;
        std::mem::swap(&mut lobby, self);
        let (next, action) = Self::step(lobby, event);
        *self = next;
        action
    }

    fn step(lobby: Lobby, event: LobbyEvent) -> (r: (Lobby, LobbyAction))
        ensures
            (r.0@, r.1) == spec_lobby_step(lobby@, event@),
    {
        match lobby {
            Lobby::Disconnected => match event {
                LobbyEvent::Connect { name } => (Lobby::Connecting { name }, LobbyAction::Connect),
                _ => (Lobby::Disconnected, LobbyAction::Nothing),
            },
            Lobby::Connecting { name } => match event {
                LobbyEvent::Connected => {
                    let members: Vec<ClientRef> = Vec::new();
                    (Lobby::Connected { name, members, video_call: VideoCall::new() }, LobbyAction::Listen)
                },
                _ => (Lobby::Connecting { name }, LobbyAction::Nothing),
            },
            Lobby::Connected { name, members, mut video_call } => match event {
                LobbyEvent::Members(new_members) => (
                    Lobby::Connected { name, members: new_members, video_call },
                    LobbyAction::Nothing,
                ),
                LobbyEvent::Error => (Lobby::Connected { name, members, video_call }, LobbyAction::ReportError),
                LobbyEvent::VideoCall(call_event) => {
                    let negotiating = match video_call {
                        VideoCall::Connecting { client_id, .. } => Some(client_id),
                        _ => None,
                    };
                    let action = match call_event {
                        CallEvent::SendOffer => match negotiating {
                            Some(client_id) => LobbyAction::SendOffer { client_id },
                            None => LobbyAction::Nothing,
                        },
                        CallEvent::SendAnswer => match negotiating {
                            Some(client_id) => LobbyAction::SendAnswer { client_id },
                            None => LobbyAction::Nothing,
                        },
                        CallEvent::SendICECandidate => match negotiating {
                            Some(client_id) => LobbyAction::SendIceCandidate { client_id },
                            None => LobbyAction::Nothing,
                        },
                        _ => LobbyAction::Call(video_call.update(call_event)),
                    };
                    (Lobby::Connected { name, members, video_call }, action)
                },
                _ => (Lobby::Connected { name, members, video_call }, LobbyAction::Nothing),
            },
        }
    }
}

/// How far the lobby has got: 0 disconnected, 1 connecting, 2 connected.
pub open spec fn spec_lobby_rank(lobby: LobbyView) -> int {
    match lobby {
        LobbyView::Disconnected => 0,
        LobbyView::Connecting { .. } => 1,
        LobbyView::Connected { .. } => 2,
    }
}

/// Signaling of a call goes only to the peer it is being negotiated with:
/// the lobby asks to send an offer, answer or ICE candidate only while the
/// call negotiates, and only to the peer of that call; the call itself is
/// left as it is by such a request.
pub proof fn lemma_signaling_goes_to_peer(lobby: LobbyView, event: LobbyEventView)
    ensures
        ({
            let (next, action) = spec_lobby_step(lobby, event);
            match action {
                LobbyAction::SendOffer { client_id } | LobbyAction::SendAnswer { client_id }
                | LobbyAction::SendIceCandidate { client_id } => {
                    &&& lobby matches LobbyView::Connected { video_call, .. }
                    &&& video_call is Connecting
                    &&& spec_active_caller(video_call) == Some(client_id)
                    &&& next == lobby
                },
                _ => true,
            }
        }),
{
}

/// The lobby only moves forward: from disconnected to connecting to
/// connected, never back; once connected, the user name stays and only a
/// list from the server changes the members.
pub proof fn lemma_lobby_moves_forward(lobby: LobbyView, event: LobbyEventView)
    ensures
        spec_lobby_rank(spec_lobby_step(lobby, event).0) >= spec_lobby_rank(lobby),
        lobby matches LobbyView::Connected { name, members, .. } ==> (
            spec_lobby_step(lobby, event).0 matches LobbyView::Connected { name: name2, members: members2, .. }
            && name2 == name
            && (!(event is Members) ==> members2 == members)),
{
}

/// A connected lobby hands every call event except the three sends to its
/// call, and its call then moves exactly as the call machine moves it, with
/// that machine's action; in particular a reported disconnection leaves the
/// lobby with an idle call. Name and members stay.
pub proof fn lemma_lobby_forwards_call_events(
    name: Seq<char>,
    members: Seq<ClientRef>,
    video_call: VideoCall,
    event: CallEvent,
)
    requires
        event != CallEvent::SendOffer,
        event != CallEvent::SendAnswer,
        event != CallEvent::SendICECandidate,
    ensures
        spec_lobby_step(LobbyView::Connected { name, members, video_call }, LobbyEventView::VideoCall(event)) == (
            LobbyView::Connected { name, members, video_call: spec_call_step(video_call, event).0 },
            LobbyAction::Call(spec_call_step(video_call, event).1),
        ),
        event == CallEvent::Disconnected ==> spec_lobby_step(
            LobbyView::Connected { name, members, video_call },
            LobbyEventView::VideoCall(event),
        ).0 == (LobbyView::Connected { name, members, video_call: VideoCall::Disconnected }),
{
}

/// Each lobby action is called for in exactly one situation: connecting on
/// sign-in while disconnected, with the signed-in name; listening when the
/// connection comes up, with no members yet and an idle call; reporting
/// errors while connected; relaying an offer, answer or ICE candidate only
/// while connected and the call negotiates, to the peer of that negotiation;
/// a list from the server replacing the members and nothing else.
pub proof fn lemma_lobby_actions(lobby: LobbyView, event: LobbyEventView)
    ensures
        ({
            let (next, action) = spec_lobby_step(lobby, event);
            &&& (action == LobbyAction::Connect) <==> (lobby is Disconnected && event is Connect)
            &&& lobby is Disconnected ==> (event matches LobbyEventView::Connect { name }
                ==> next == (LobbyView::Connecting { name }))
            &&& (action == LobbyAction::Listen) <==> (lobby is Connecting && event is Connected)
            &&& lobby matches LobbyView::Connecting { name } ==> (event is Connected ==> next
                == (LobbyView::Connected { name, members: Seq::empty(), video_call: VideoCall::Disconnected }))
            &&& (action == LobbyAction::ReportError) <==> (lobby is Connected && event is Error)
            &&& (action is Call) <==> (lobby is Connected && (event matches LobbyEventView::VideoCall(e)
                && e != CallEvent::SendOffer && e != CallEvent::SendAnswer && e != CallEvent::SendICECandidate))
            &&& next != lobby ==> ((lobby is Disconnected && event is Connect) || (lobby is Connecting
                && event is Connected) || (lobby is Connected && (event is Members || event is VideoCall)))
            &&& (action is SendOffer || action is SendAnswer || action is SendIceCandidate || action is Call)
                ==> lobby is Connected
            &&& action matches LobbyAction::SendOffer { client_id } ==> (event == LobbyEventView::VideoCall(
                CallEvent::SendOffer) && (lobby matches LobbyView::Connected { video_call, .. } && video_call is Connecting
                && spec_active_caller(video_call) == Some(client_id)))
            &&& action matches LobbyAction::SendAnswer { client_id } ==> (event == LobbyEventView::VideoCall(
                CallEvent::SendAnswer) && (lobby matches LobbyView::Connected { video_call, .. } && video_call is Connecting
                && spec_active_caller(video_call) == Some(client_id)))
            &&& action matches LobbyAction::SendIceCandidate { client_id } ==> (event == LobbyEventView::VideoCall(
                CallEvent::SendICECandidate) && (lobby matches LobbyView::Connected { video_call, .. } && video_call is Connecting
                && spec_active_caller(video_call) == Some(client_id)))
            &&& lobby matches LobbyView::Connected { name, video_call, .. } ==> (event matches LobbyEventView::Members(m)
                ==> next == (LobbyView::Connected { name, members: m, video_call }) && action == LobbyAction::Nothing)
            &&& lobby matches LobbyView::Connected { video_call, .. } ==> (video_call matches VideoCall::Connecting {
                client_id, .. } ==> (event == LobbyEventView::VideoCall(CallEvent::SendOffer) ==> action
                == (LobbyAction::SendOffer { client_id })))
            &&& lobby matches LobbyView::Connected { video_call, .. } ==> (video_call matches VideoCall::Connecting {
                client_id, .. } ==> (event == LobbyEventView::VideoCall(CallEvent::SendAnswer) ==> action
                == (LobbyAction::SendAnswer { client_id })))
            &&& lobby matches LobbyView::Connected { video_call, .. } ==> (video_call matches VideoCall::Connecting {
                client_id, .. } ==> (event == LobbyEventView::VideoCall(CallEvent::SendICECandidate) ==> action
                == (LobbyAction::SendIceCandidate { client_id })))
        }),
{
}

/// The call event behind the button shown next to a member: hang up when the
/// member is the peer of the call in progress, otherwise call them.
pub fn member_button_event(active_caller: Option<u32>, member_id: u32) -> (e: CallEvent)
    ensures
        e == (if active_caller == Some(member_id) { CallEvent::Disconnect } else { CallEvent::Call(member_id) }),
{
    match active_caller {
        Some(caller) => {
            if caller == member_id {
                CallEvent::Disconnect
            } else {
                CallEvent::Call(member_id)
            }
        },
        None => CallEvent::Call(member_id),
    }
}

} // verus!
