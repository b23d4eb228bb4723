//! The decisions of a single video call with one remote peer.
//!
//! A call is either idle, being negotiated with one peer, or established with
//! that peer. The connection objects, the latest video frame and the measured
//! bandwidth live with the caller; this module decides, for each incoming
//! event, the next phase of the call and the one piece of work to perform.
use vstd::prelude::*;

verus! {

/// Which side of the WebRTC negotiation this end plays.
#[derive(Debug, Clone, Copy, PartialEq, Eq, Structural)]
pub enum Role {
    /// This end created the connection and sends the initial offer.
    Initiator,
    /// This end received the initial offer and answers it.
    Follower,
}

/// Phase of the call.
#[derive(Debug, Clone, Copy, PartialEq, Eq, Structural)]
pub enum VideoCall {
    /// No call in progress.
    Disconnected,
    /// Negotiating a call with `client_id`.
    Connecting { client_id: u32, role: Role },
    /// Call with `client_id` established; media flows.
    Connected { client_id: u32, role: Role },
}

/// What happened, as far as the call's decisions are concerned. Payloads
/// (session descriptions, ICE candidates, frames, statistics) stay with the
/// caller; only the ids and roles that decisions read are carried here.
#[derive(Debug, Clone, Copy, PartialEq, Eq, Structural)]
pub enum CallEvent {
    /// The peer `client_id` sent an ICE candidate.
    GotICECandidate { client_id: u32 },
    /// A local ICE candidate must be sent to the peer.
    SendICECandidate,
    /// A remote ICE candidate was applied.
    NewICECandidate,
    /// A local offer must be sent to the peer.
    SendOffer,
    /// The offer left.
    OfferSent,
    /// A local answer must be sent to the peer.
    SendAnswer,
    /// The answer left.
    AnswerSent,
    /// The peer's answer was applied.
    AnswerReceived,
    /// The peer `client_id` offers a call.
    GotOffer { client_id: u32 },
    /// The peer `client_id` answered our offer.
    GotAnswer { client_id: u32 },
    /// An outgoing connection towards `client_id` was created.
    NewOutConnection { client_id: u32, role: Role },
    /// An incoming connection from `client_id` was created.
    NewInConnection { client_id: u32, role: Role },
    /// A decoded remote video frame arrived.
    NewVideoFrame,
    /// The remote video track appeared.
    NewVideoTrack,
    /// A bandwidth measurement arrived.
    VideoBandwidthStats,
    /// The user asks to call `client_id`.
    Call(u32),
    /// The peer connection is established.
    Connected,
    /// The peer connection is gone.
    Disconnected,
    /// The user hangs up.
    Disconnect,
}

/// The work that an event calls for.
#[derive(Debug, Clone, Copy, PartialEq, Eq, Structural)]
pub enum CallAction {
    /// Nothing to do.
    Nothing,
    /// Close the peer connection, then report `Disconnected`.
    Close,
    /// Create a connection as initiator towards `client_id` and produce an offer.
    Initiate { client_id: u32 },
    /// Create a connection as follower for `client_id` and answer its offer.
    Follow { client_id: u32 },
    /// Hand the fresh offer to the signaling layer.
    SendOffer,
    /// Hand the fresh answer to the signaling layer.
    SendAnswer,
    /// Start sending camera video and receiving the peer's video.
    StartMedia,
    /// Apply the peer's answer to the connection.
    HandleAnswer,
    /// Apply the peer's ICE candidate to the connection.
    AddIceCandidate,
    /// Start trickling local ICE candidates until the connection settles.
    Trickle,
    /// Keep the new remote frame for display.
    StoreFrame,
    /// Keep the new bandwidth figure for display.
    StoreBandwidth,
}

/// The peer of the call in progress, if any.
pub open spec fn spec_active_caller(call: VideoCall) -> Option<u32> {
    match call {
        VideoCall::Disconnected => None,
        VideoCall::Connecting { client_id, .. } => Some(client_id),
        VideoCall::Connected { client_id, .. } => Some(client_id),
    }
}

/// The transition table of a call: next phase and action for each phase and event.
pub open spec fn spec_call_step(call: VideoCall, event: CallEvent) -> (VideoCall, CallAction) {
    match call {
        VideoCall::Disconnected => match event {
            CallEvent::Call(client_id) => (call, CallAction::Initiate { client_id }),
            CallEvent::NewOutConnection { client_id, role } =>
                (VideoCall::Connecting { client_id, role }, CallAction::SendOffer),
            CallEvent::NewInConnection { client_id, role } =>
                (VideoCall::Connecting { client_id, role }, CallAction::SendAnswer),
            CallEvent::GotOffer { client_id } => (call, CallAction::Follow { client_id }),
            _ => (call, CallAction::Nothing),
        },
        VideoCall::Connecting { client_id, role } => match event {
            CallEvent::Disconnect => (call, CallAction::Close),
            CallEvent::Disconnected => (VideoCall::Disconnected, CallAction::Nothing),
            CallEvent::Connected => (VideoCall::Connected { client_id, role }, CallAction::StartMedia),
            CallEvent::GotAnswer { client_id: from } =>
                if from == client_id && role == Role::Initiator {
                    (call, CallAction::HandleAnswer)
                } else {
                    (call, CallAction::Nothing)
                },
            CallEvent::GotICECandidate { client_id: from } =>
                if from == client_id {
                    (call, CallAction::AddIceCandidate)
                } else {
                    (call, CallAction::Nothing)
                },
            CallEvent::AnswerReceived => (call, CallAction::Trickle),
            CallEvent::AnswerSent => (call, CallAction::Trickle),
            _ => (call, CallAction::Nothing),
        },
        VideoCall::Connected { .. } => match event {
            CallEvent::Disconnect => (call, CallAction::Close),
            CallEvent::Disconnected => (VideoCall::Disconnected, CallAction::Nothing),
            CallEvent::NewVideoFrame => (call, CallAction::StoreFrame),
            CallEvent::VideoBandwidthStats => (call, CallAction::StoreBandwidth),
            _ => (call, CallAction::Nothing),
        },
    }
}

impl VideoCall {
    /// A fresh call: nothing in progress.
    pub fn new() -> (r: VideoCall)
        ensures
            r == VideoCall::Disconnected,
    {
        VideoCall::Disconnected
    }

    /// The peer of the call in progress, if any.
    pub fn active_caller(&self) -> (r: Option<u32>)
        ensures
            r == spec_active_caller(*self),
    {
        match self {
            VideoCall::Connected { client_id, .. } => Some(*client_id),
            VideoCall::Connecting { client_id, .. } => Some(*client_id),
            VideoCall::Disconnected => None,
        }
    }

    /// Moves the call on by one event and returns the work to perform.
    pub fn update(&mut self, event: CallEvent) -> (action: CallAction)
        ensures
            (*final(self), action) == spec_call_step(*old(self), event),
    {
        match *self {
            VideoCall::Disconnected => match event {
                CallEvent::Call(client_id) => CallAction::Initiate { client_id },
                CallEvent::NewOutConnection { client_id, role } => {
                    *self = VideoCall::Connecting { client_id, role };
                    CallAction::SendOffer
                },
                CallEvent::NewInConnection { client_id, role } => {
                    *self = VideoCall::Connecting { client_id, role };
                    CallAction::SendAnswer
                },
                CallEvent::GotOffer { client_id } => CallAction::Follow { client_id },
                _ => CallAction::Nothing,
            },
            VideoCall::Connecting { client_id, role } => match event {
                CallEvent::Disconnect => CallAction::Close,
                CallEvent::Disconnected => {
                    *self = VideoCall::Disconnected;
                    CallAction::Nothing
                },
                CallEvent::Connected => {
                    *self = VideoCall::Connected { client_id, role };
                    CallAction::StartMedia
                },
                CallEvent::GotAnswer { client_id: from } => {
                    if from != client_id {
                        CallAction::Nothing
                    } else {
                        match role {
                            Role::Initiator => CallAction::HandleAnswer,
                            Role::Follower => CallAction::Nothing,
                        }
                    }
                },
                CallEvent::GotICECandidate { client_id: from } => {
                    if from != client_id {
                        CallAction::Nothing
                    } else {
                        CallAction::AddIceCandidate
                    }
                },
                CallEvent::AnswerReceived => CallAction::Trickle,
                CallEvent::AnswerSent => CallAction::Trickle,
                _ => CallAction::Nothing,
            },
            VideoCall::Connected { .. } => match event {
                CallEvent::Disconnect => CallAction::Close,
                CallEvent::Disconnected => {
                    *self = VideoCall::Disconnected;
                    CallAction::Nothing
                },
                CallEvent::NewVideoFrame => CallAction::StoreFrame,
                CallEvent::VideoBandwidthStats => CallAction::StoreBandwidth,
                _ => CallAction::Nothing,
            },
        }
    }
}


/// A call involves one peer at a time: as long as a call stays in progress,
/// no event changes who the peer is.
pub proof fn lemma_single_peer(call: VideoCall, event: CallEvent)
    ensures
        spec_active_caller(call) is Some && spec_active_caller(spec_call_step(call, event).0) is Some
            ==> spec_active_caller(spec_call_step(call, event).0) == spec_active_caller(call),
{
}

/// Answers and ICE candidates from anyone but the peer of the call are
/// ignored: the call stays as it is and nothing is done.
pub proof fn lemma_foreign_signals_ignored(call: VideoCall, from: u32)
    requires
        spec_active_caller(call) != Some(from),
    ensures
        spec_call_step(call, CallEvent::GotAnswer { client_id: from }) == (call, CallAction::Nothing),
        spec_call_step(call, CallEvent::GotICECandidate { client_id: from }) == (call, CallAction::Nothing),
{
}

/// Hanging up does not end the call by itself: it asks for the connection to
/// be closed while a call exists, and the call ends when the disconnection is
/// reported, after which no peer is active.
pub proof fn lemma_hang_up(call: VideoCall)
    ensures
        spec_call_step(call, CallEvent::Disconnect).0 == call,
        spec_call_step(call, CallEvent::Disconnect).1 == (if call is Disconnected {
            CallAction::Nothing
        } else {
            CallAction::Close
        }),
        spec_call_step(call, CallEvent::Disconnected).0 == VideoCall::Disconnected,
        spec_active_caller(spec_call_step(call, CallEvent::Disconnected).0) is None,
{
}

/// A call becomes established only from negotiation, with the same peer and
/// role, and that is the one step that starts the media.
pub proof fn lemma_connect_only_from_negotiation(call: VideoCall, event: CallEvent)
    ensures
        spec_call_step(call, event).0 is Connected ==> (call is Connected || call is Connecting),
        spec_call_step(call, event).1 == CallAction::StartMedia <==> (call is Connecting && event == CallEvent::Connected),
        call matches VideoCall::Connecting { client_id, role } ==> (event == CallEvent::Connected
            ==> spec_call_step(call, event).0 == (VideoCall::Connected { client_id, role })),
{
}

/// Negotiation starts only from an idle call: an offer or an incoming call
/// while a call is in progress does not replace that call.
pub proof fn lemma_busy_keeps_call(call: VideoCall, event: CallEvent)
    requires
        !(call is Disconnected),
        !(event is Disconnected),
        !(call is Connecting && event is Connected),
    ensures
        spec_call_step(call, event).0 == call,
{
}


/// Negotiation starts only from an idle call: while a call is being
/// negotiated or is up, no event makes it create a connection, whether to
/// call someone or to answer an offer.
pub proof fn lemma_negotiation_only_when_idle(call: VideoCall, event: CallEvent)
    requires
        !(call is Disconnected),
    ensures
        !(spec_call_step(call, event).1 is Initiate),
        !(spec_call_step(call, event).1 is Follow),
        !(spec_call_step(call, event).1 == CallAction::SendOffer),
        !(spec_call_step(call, event).1 == CallAction::SendAnswer),
{
}

/// Each piece of work is called for in exactly one situation:
/// calling someone or answering an offer only when idle, towards the user's
/// choice or the offering peer; sending the offer or answer only when idle and
/// the matching connection was just made; closing only on hang-up of a call
/// in progress; starting media only when a negotiation connects; applying an
/// answer only as initiator and from the peer; applying an ICE candidate only
/// while negotiating and from the peer; trickling only after the answer was
/// received or sent; keeping frames and bandwidth figures only while the call
/// is up.
pub proof fn lemma_call_actions(call: VideoCall, event: CallEvent)
    ensures
        ({
            let action = spec_call_step(call, event).1;
            &&& (action is Initiate) <==> (call is Disconnected && event is Call)
            &&& (action matches CallAction::Initiate { client_id } ==> event == CallEvent::Call(client_id))
            &&& (action is Follow) <==> (call is Disconnected && event is GotOffer)
            &&& (action matches CallAction::Follow { client_id } ==> event == (CallEvent::GotOffer { client_id }))
            &&& (action == CallAction::SendOffer) <==> (call is Disconnected && event is NewOutConnection)
            &&& (action == CallAction::SendAnswer) <==> (call is Disconnected && event is NewInConnection)
            &&& (action == CallAction::Close) <==> (!(call is Disconnected) && event == CallEvent::Disconnect)
            &&& (action == CallAction::StartMedia) <==> (call is Connecting && event == CallEvent::Connected)
            &&& (action == CallAction::HandleAnswer) <==> (call matches VideoCall::Connecting { client_id, role }
                && role == Role::Initiator && event == (CallEvent::GotAnswer { client_id }))
            &&& (action == CallAction::AddIceCandidate) <==> (call matches VideoCall::Connecting { client_id, .. }
                && event == (CallEvent::GotICECandidate { client_id }))
            &&& (action == CallAction::Trickle) <==> (call is Connecting && (event == CallEvent::AnswerReceived
                || event == CallEvent::AnswerSent))
            &&& (action == CallAction::StoreFrame) <==> (call is Connected && event == CallEvent::NewVideoFrame)
            &&& (action == CallAction::StoreBandwidth) <==> (call is Connected && event
                == CallEvent::VideoBandwidthStats)
        }),
{
}

/// The phase moves in exactly these ways: a report that the connection is
/// gone ends any call; a new outgoing or incoming connection starts
/// negotiating with its peer in its role when idle; a negotiation that
/// connects is up, with the same peer and role; every other event leaves the
/// phase as it is.
pub proof fn lemma_call_phases(call: VideoCall, event: CallEvent)
    ensures
        ({
            let next = spec_call_step(call, event).0;
            &&& event == CallEvent::Disconnected ==> next == VideoCall::Disconnected
            &&& call is Disconnected ==> (event matches CallEvent::NewOutConnection { client_id, role }
                ==> next == (VideoCall::Connecting { client_id, role }))
            &&& call is Disconnected ==> (event matches CallEvent::NewInConnection { client_id, role }
                ==> next == (VideoCall::Connecting { client_id, role }))
            &&& call matches VideoCall::Connecting { client_id, role } ==> (event == CallEvent::Connected
                ==> next == (VideoCall::Connected { client_id, role }))
            &&& next != call ==> (event == CallEvent::Disconnected
                || (call is Disconnected && (event is NewOutConnection || event is NewInConnection))
                || (call is Connecting && event == CallEvent::Connected))
        }),
{
}

/// Who the call is with: nobody when idle, the peer otherwise.
pub proof fn lemma_active_caller(call: VideoCall)
    ensures
        call is Disconnected <==> spec_active_caller(call) is None,
        call matches VideoCall::Connecting { client_id, .. } ==> spec_active_caller(call) == Some(client_id),
        call matches VideoCall::Connected { client_id, .. } ==> spec_active_caller(call) == Some(client_id),
{
}

} // verus!
