//! Decisions driven by the state of a WebRTC peer connection.
use vstd::prelude::*;

use crate::call::CallEvent;

verus! {

/// Failure of a WebRTC operation.
#[derive(Debug, Clone, Copy, PartialEq, Eq, Structural)]
pub struct WebRTCError;

impl WebRTCError {
    /// The human-readable description of the error.
    pub fn message(&self) -> (r: String)
        ensures
            r@ == "WebRTC error"@,
    {
        "WebRTC error".to_owned()
    }
}

/// State of a peer connection, as reported by the WebRTC stack.
#[derive(Debug, Clone, Copy, PartialEq, Eq, Structural)]
pub enum PeerState {
    Unspecified,
    New,
    Connecting,
    Connected,
    Disconnected,
    Failed,
    Closed,
}

/// The connection is gone for good or for now.
pub open spec fn spec_is_down(state: PeerState) -> bool {
    state == PeerState::Disconnected || state == PeerState::Failed || state == PeerState::Closed
}

/// The connection has settled: it is up, or it is down.
pub open spec fn spec_is_settled(state: PeerState) -> bool {
    state == PeerState::Connected || spec_is_down(state)
}

/// Which one-shot signals a state change sets.
#[derive(Debug, Clone, Copy, PartialEq, Eq, Structural)]
pub struct StateSignals {
    /// The connection attempt has an outcome (kept as the first outcome seen).
    pub connection_done: bool,
    /// The connection went down.
    pub disconnected: bool,
}

/// The signals that a change to `state` sets.
pub fn state_signals(state: PeerState) -> (r: StateSignals)
    ensures
        r.connection_done == spec_is_settled(state),
        r.disconnected == spec_is_down(state),
        r.connection_done <==> (state == PeerState::Connected || state == PeerState::Disconnected
            || state == PeerState::Failed || state == PeerState::Closed),
        r.disconnected <==> (state == PeerState::Disconnected || state == PeerState::Failed
            || state == PeerState::Closed),
{
    match state {
        PeerState::Connected => StateSignals { connection_done: true, disconnected: false },
        PeerState::Disconnected | PeerState::Failed | PeerState::Closed => StateSignals {
            connection_done: true,
            disconnected: true,
        },
        _ => StateSignals { connection_done: false, disconnected: false },
    }
}

/// The outcome of waiting for a connection, from the state it settled in.
pub fn connection_result(state: PeerState) -> (r: Result<(), WebRTCError>)
    ensures
        r is Ok <==> state == PeerState::Connected,
        r is Err ==> r == Err::<(), WebRTCError>(WebRTCError),
{
    match state {
        PeerState::Connected => Ok(()),
        _ => Err(WebRTCError),
    }
}

/// What a connection state reports to the call while ICE candidates trickle.
pub open spec fn spec_trickle_outcome(state: PeerState) -> Option<CallEvent> {
    if state == PeerState::Connected {
        Some(CallEvent::Connected)
    } else if spec_is_down(state) {
        Some(CallEvent::Disconnected)
    } else {
        None
    }
}

/// While trickling ICE candidates: what a settled connection state reports to
/// the call, or `None` when it is still to be waited for.
pub fn trickle_outcome(state: PeerState) -> (r: Option<CallEvent>)
    ensures
        r == spec_trickle_outcome(state),
        r == Some(CallEvent::Connected) <==> state == PeerState::Connected,
        r == Some(CallEvent::Disconnected) <==> (state == PeerState::Disconnected || state == PeerState::Failed
            || state == PeerState::Closed),
        r is None <==> (state == PeerState::Unspecified || state == PeerState::New
            || state == PeerState::Connecting),
{
    match state {
        PeerState::Connected => Some(CallEvent::Connected),
        PeerState::Disconnected | PeerState::Failed | PeerState::Closed => Some(CallEvent::Disconnected),
        _ => None,
    }
}

/// Whether a new bandwidth figure is due at `now_ms`, the last one having
/// been taken at `last_ms` (milliseconds): more than a second has passed.
pub fn stats_due(now_ms: u128, last_ms: u128) -> (r: bool)
    requires
        last_ms <= now_ms,
    ensures
        r <==> now_ms - last_ms > 1000,
{
    now_ms - last_ms > 1000
}

/// A connection that goes down also counts as settled, so whoever waits for
/// the outcome of a connection attempt is released by a disconnection, and
/// that outcome is a failure.
pub proof fn lemma_down_releases_waiters(state: PeerState)
    requires
        spec_is_down(state),
    ensures
        spec_is_settled(state),
        state != PeerState::Connected,
{
}


/// The two one-shot signals of a connection: the outcome of the connection
/// attempt (the first settled state reported) and whether it went down.
pub struct ConnectionSignals {
    done: Option<PeerState>,
    disconnected: bool,
}

/// Signals after a state change: a set outcome is kept; an unset one takes
/// a settled state; the down signal, once set, stays set.
pub open spec fn spec_signals_step(
    done: Option<PeerState>,
    disconnected: bool,
    state: PeerState,
) -> (Option<PeerState>, bool) {
    (
        if done is Some { done } else if spec_is_settled(state) { Some(state) } else { None },
        disconnected || spec_is_down(state),
    )
}

/// Signals after a sequence of state changes, in order.
pub open spec fn spec_signals_run(
    done: Option<PeerState>,
    disconnected: bool,
    states: Seq<PeerState>,
) -> (Option<PeerState>, bool)
    decreases states.len(),
{
    if states.len() == 0 {
        (done, disconnected)
    } else {
        let (d, x) = spec_signals_step(done, disconnected, states[0]);
        spec_signals_run(d, x, states.drop_first())
    }
}

/// The first settled state of a sequence, if any.
pub open spec fn spec_first_settled(states: Seq<PeerState>) -> Option<PeerState>
    decreases states.len(),
{
    if states.len() == 0 {
        None
    } else if spec_is_settled(states[0]) {
        Some(states[0])
    } else {
        spec_first_settled(states.drop_first())
    }
}

impl ConnectionSignals {
    /// The outcome of the connection attempt, once known.
    pub closed spec fn spec_done(&self) -> Option<PeerState> {
        self.done
    }

    /// Whether the connection went down.
    pub closed spec fn spec_disconnected(&self) -> bool {
        self.disconnected
    }

    /// Neither signal set.
    pub fn new() -> (r: ConnectionSignals)
        ensures
            r.spec_done() is None,
            !r.spec_disconnected(),
    {
        ConnectionSignals { done: None, disconnected: false }
    }

    /// Records a state change and returns which signals it sets now (each
    /// signal is set at most once).
    pub fn on_state_change(&mut self, state: PeerState) -> (r: StateSignals)
        ensures
            (final(self).spec_done(), final(self).spec_disconnected())
                == spec_signals_step(old(self).spec_done(), old(self).spec_disconnected(), state),
            r.connection_done == (old(self).spec_done() is None && spec_is_settled(state)),
            r.disconnected == (!old(self).spec_disconnected() && spec_is_down(state)),
    {
        let signals = state_signals(state);
        let set_done = self.done.is_none() && signals.connection_done;
        let set_disconnected = !self.disconnected && signals.disconnected;
        if set_done {
            self.done = Some(state);
        }
        if set_disconnected {
            self.disconnected = true;
        }
        StateSignals { connection_done: set_done, disconnected: set_disconnected }
    }
}

/// The one-shot signals keep their first value: after any sequence of state
/// changes, a set outcome is unchanged and an unset one is the first settled
/// state of the sequence; the connection counts as down exactly when it was
/// already, or some state of the sequence is a down state.
pub proof fn lemma_signals_keep_first(done: Option<PeerState>, disconnected: bool, states: Seq<PeerState>)
    ensures
        spec_signals_run(done, disconnected, states).0
            == (if done is Some { done } else { spec_first_settled(states) }),
        spec_signals_run(done, disconnected, states).1
            == (disconnected || exists|i: int| 0 <= i < states.len() && spec_is_down(#[trigger] states[i])),
    decreases states.len(),
{
    if states.len() > 0 {
        let (d, x) = spec_signals_step(done, disconnected, states[0]);
        let tail = states.drop_first();
        lemma_signals_keep_first(d, x, tail);
        if exists|i: int| 0 <= i < states.len() && spec_is_down(#[trigger] states[i]) {
            let i = choose|i: int| 0 <= i < states.len() && spec_is_down(#[trigger] states[i]);
            if i > 0 {
                assert(tail[i - 1] == states[i]);
            }
        }
        if exists|i: int| 0 <= i < tail.len() && spec_is_down(#[trigger] tail[i]) {
            let i = choose|i: int| 0 <= i < tail.len() && spec_is_down(#[trigger] tail[i]);
            assert(states[i + 1] == tail[i]);
        }
    }
}

/// What the ICE-candidate stream is handed on each poll.
#[derive(Debug, Clone, Copy, PartialEq, Eq, Structural)]
pub enum TrickleInput {
    /// A local ICE candidate was gathered.
    Candidate,
    /// The connection reported this state.
    Report(PeerState),
}

/// The answer to one poll of a stream.
#[derive(Debug, Clone, Copy, PartialEq, Eq, Structural)]
pub enum StreamPoll {
    /// The next item.
    Item(CallEvent),
    /// Nothing to hand out for this input; keep waiting.
    Pending,
    /// The stream is over.
    Finished,
}

/// One poll of the ICE-candidate stream: once over, it stays over; a
/// candidate is handed on and the stream goes on; a settled state is reported
/// and ends the stream; an unsettled state is waited past.
pub open spec fn spec_trickle_step(finished: bool, input: TrickleInput) -> (bool, StreamPoll) {
    if finished {
        (true, StreamPoll::Finished)
    } else {
        match input {
            TrickleInput::Candidate => (false, StreamPoll::Item(CallEvent::SendICECandidate)),
            TrickleInput::Report(state) => match spec_trickle_outcome(state) {
                Some(event) => (true, StreamPoll::Item(event)),
                None => (false, StreamPoll::Pending),
            },
        }
    }
}

/// The answers to a sequence of polls, in order.
pub open spec fn spec_trickle_run(finished: bool, inputs: Seq<TrickleInput>) -> Seq<StreamPoll>
    decreases inputs.len(),
{
    if inputs.len() == 0 {
        Seq::empty()
    } else {
        let (f, out) = spec_trickle_step(finished, inputs[0]);
        seq![out] + spec_trickle_run(f, inputs.drop_first())
    }
}

/// Some input before position `i` reports a settled state.
pub open spec fn spec_settled_before(inputs: Seq<TrickleInput>, i: int) -> bool {
    exists|j: int|
        0 <= j < i && (#[trigger] inputs[j] matches TrickleInput::Report(state) && spec_is_settled(state))
}

/// The state of the ICE-candidate stream.
pub struct TrickleStream {
    finished: bool,
}

impl TrickleStream {
    /// Whether the stream is over.
    pub closed spec fn spec_finished(&self) -> bool {
        self.finished
    }

    /// A stream that has not reported anything yet.
    pub fn new() -> (r: TrickleStream)
        ensures
            !r.spec_finished(),
    {
        TrickleStream { finished: false }
    }

    /// Whether the stream is over.
    pub fn is_finished(&self) -> (r: bool)
        ensures
            r == self.spec_finished(),
    {
        self.finished
    }

    /// Answers one poll.
    pub fn poll(&mut self, input: TrickleInput) -> (r: StreamPoll)
        ensures
            (final(self).spec_finished(), r) == spec_trickle_step(old(self).spec_finished(), input),
    {
        if self.finished {
            return StreamPoll::Finished;
        }
        match input {
            TrickleInput::Candidate => StreamPoll::Item(CallEvent::SendICECandidate),
            TrickleInput::Report(state) => match trickle_outcome(state) {
                Some(event) => {
                    self.finished = true;
                    StreamPoll::Item(event)
                },
                None => StreamPoll::Pending,
            },
        }
    }
}

/// The ICE-candidate stream ends exactly after the first settled report: at
/// each poll it answers `Finished` exactly when it was over from the start or
/// an earlier input reported a settled state, and otherwise what that input
/// alone calls for; so a candidate never ends it, the first settled report
/// is handed out as `Connected` or `Disconnected`, and every later poll finds
/// the stream over.
pub proof fn lemma_trickle_ends_after_first_settled(finished: bool, inputs: Seq<TrickleInput>)
    ensures
        spec_trickle_run(finished, inputs).len() == inputs.len(),
        forall|i: int|
            0 <= i < inputs.len() ==> #[trigger] spec_trickle_run(finished, inputs)[i] == (if finished
                || spec_settled_before(inputs, i) {
                StreamPoll::Finished
            } else {
                spec_trickle_step(false, inputs[i]).1
            }),
    decreases inputs.len(),
{
    if inputs.len() > 0 {
        let (f, out) = spec_trickle_step(finished, inputs[0]);
        let tail = inputs.drop_first();
        lemma_trickle_ends_after_first_settled(f, tail);
        let run = spec_trickle_run(finished, inputs);
        assert(run == seq![out] + spec_trickle_run(f, tail));
        assert(f == (finished || spec_settled_before(inputs, 1))) by {
            if inputs[0] matches TrickleInput::Report(state) && spec_is_settled(state) {
                assert(spec_settled_before(inputs, 1));
            }
        }
        assert forall|i: int| 0 <= i < inputs.len() implies #[trigger] run[i] == (if finished
            || spec_settled_before(inputs, i) {
            StreamPoll::Finished
        } else {
            spec_trickle_step(false, inputs[i]).1
        }) by {
            if i > 0 {
                assert(run[i] == spec_trickle_run(f, tail)[i - 1]);
                assert(tail[i - 1] == inputs[i]);
                if spec_settled_before(inputs, i) {
                    let j = choose|j: int|
                        0 <= j < i && (#[trigger] inputs[j] matches TrickleInput::Report(state)
                            && spec_is_settled(state));
                    if j > 0 {
                        assert(tail[j - 1] == inputs[j]);
                        assert(spec_settled_before(tail, i - 1));
                    } else {
                        assert(spec_settled_before(inputs, 1));
                    }
                }
                if spec_settled_before(tail, i - 1) {
                    let j = choose|j: int|
                        0 <= j < i - 1 && (#[trigger] tail[j] matches TrickleInput::Report(state)
                            && spec_is_settled(state));
                    assert(inputs[j + 1] == tail[j]);
                    assert(spec_settled_before(inputs, i));
                }
                if spec_settled_before(inputs, 1) {
                    let j = choose|j: int|
                        0 <= j < 1 && (#[trigger] inputs[j] matches TrickleInput::Report(state)
                            && spec_is_settled(state));
                    assert(spec_settled_before(inputs, i));
                }
            } else {
                assert(!spec_settled_before(inputs, 0));
            }
        }
    }
}


/// Which states end a connection attempt and which mean it went down, state
/// by state: only `Connected` is up; `Disconnected`, `Failed` and `Closed` are
/// down; `Unspecified`, `New` and `Connecting` are still open.
pub proof fn lemma_state_classes()
    ensures
        spec_is_settled(PeerState::Connected) && !spec_is_down(PeerState::Connected),
        spec_is_settled(PeerState::Disconnected) && spec_is_down(PeerState::Disconnected),
        spec_is_settled(PeerState::Failed) && spec_is_down(PeerState::Failed),
        spec_is_settled(PeerState::Closed) && spec_is_down(PeerState::Closed),
        !spec_is_settled(PeerState::Unspecified) && !spec_is_down(PeerState::Unspecified),
        !spec_is_settled(PeerState::New) && !spec_is_down(PeerState::New),
        !spec_is_settled(PeerState::Connecting) && !spec_is_down(PeerState::Connecting),
{
}

/// While candidates trickle, only an established connection is reported as
/// connected; a connection that is disconnected, failed or closed is reported
/// as gone; any other state is waited past. A fresh stream hands out the
/// first candidate, and reports and ends on the first settled state; a
/// stream that is over stays over.
pub proof fn lemma_trickle_reports(state: PeerState)
    ensures
        spec_trickle_outcome(state) == Some(CallEvent::Connected) <==> state == PeerState::Connected,
        spec_trickle_outcome(state) == Some(CallEvent::Disconnected) <==> (state == PeerState::Disconnected
            || state == PeerState::Failed || state == PeerState::Closed),
        spec_trickle_outcome(state) is None <==> (state == PeerState::Unspecified || state == PeerState::New
            || state == PeerState::Connecting),
        spec_trickle_step(false, TrickleInput::Candidate) == (false, StreamPoll::Item(CallEvent::SendICECandidate)),
        state == PeerState::Connected ==> spec_trickle_step(false, TrickleInput::Report(state)) == (
            true,
            StreamPoll::Item(CallEvent::Connected),
        ),
        (state == PeerState::Disconnected || state == PeerState::Failed || state == PeerState::Closed)
            ==> spec_trickle_step(false, TrickleInput::Report(state)) == (
            true,
            StreamPoll::Item(CallEvent::Disconnected),
        ),
        (state == PeerState::Unspecified || state == PeerState::New || state == PeerState::Connecting)
            ==> spec_trickle_step(false, TrickleInput::Report(state)) == (false, StreamPoll::Pending),
        spec_trickle_step(true, TrickleInput::Candidate) == (true, StreamPoll::Finished),
        spec_trickle_step(true, TrickleInput::Report(state)) == (true, StreamPoll::Finished),
{
}

/// How one state change moves the one-shot signals, state by state: an
/// outcome already set is kept; an unset one takes `Connected`,
/// `Disconnected`, `Failed` or `Closed` and stays unset on any other state;
/// the down signal is set by `Disconnected`, `Failed` or `Closed` and, once
/// set, stays set. Only the connection attempt's outcome is a success.
pub proof fn lemma_signals_step(done: Option<PeerState>, disconnected: bool, state: PeerState)
    ensures
        done is Some ==> spec_signals_step(done, disconnected, state).0 == done,
        done is None ==> spec_signals_step(done, disconnected, state).0 == (if state == PeerState::Connected
            || state == PeerState::Disconnected || state == PeerState::Failed || state == PeerState::Closed {
            Some(state)
        } else {
            None
        }),
        spec_signals_step(done, disconnected, state).1 == (disconnected || state == PeerState::Disconnected
            || state == PeerState::Failed || state == PeerState::Closed),
{
}

} // verus!
