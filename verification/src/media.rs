//! Decisions of the media pipelines: decoding received video and the layout
//! of decoded frames.
use vstd::prelude::*;

use crate::call::CallEvent;
use crate::peer::StreamPoll;

verus! {

/// What the last step of decoding received video produced.
#[derive(Debug, Clone, Copy, PartialEq, Eq, Structural)]
pub enum DecodeOutcome {
    /// The decoder handed out a frame.
    Frame,
    /// The decoder has no frame ready.
    NoFrame,
    /// The reassembler handed out a complete compressed sample.
    Sample,
    /// The reassembler has no complete sample.
    NoSample,
    /// The decoder accepted the sample.
    Written,
    /// The decoder refused the sample.
    WriteFailed,
}

/// What to do next while pulling a frame out of the decoder.
#[derive(Debug, Clone, Copy, PartialEq, Eq, Structural)]
pub enum DecodeAction {
    /// Return the frame.
    YieldFrame,
    /// Return the decoder's error.
    YieldError,
    /// Nothing can be decoded until more packets arrive.
    NeedPackets,
    /// Ask the reassembler for the next complete sample.
    PopSample,
    /// Feed the sample to the decoder.
    WriteSample,
    /// Ask the decoder for a frame.
    ReadFrame,
}

/// The decoder is drained before it is fed: a pull starts by asking the
/// decoder for a frame; only when it has none is a sample fed, and after each
/// sample the decoder is asked again. A refused sample ends the pull with the
/// error; running out of samples ends it waiting for packets.
pub fn decode_next(outcome: DecodeOutcome) -> (a: DecodeAction)
    ensures
        outcome == DecodeOutcome::Frame ==> a == DecodeAction::YieldFrame,
        outcome == DecodeOutcome::NoFrame ==> a == DecodeAction::PopSample,
        outcome == DecodeOutcome::Sample ==> a == DecodeAction::WriteSample,
        outcome == DecodeOutcome::NoSample ==> a == DecodeAction::NeedPackets,
        outcome == DecodeOutcome::Written ==> a == DecodeAction::ReadFrame,
        outcome == DecodeOutcome::WriteFailed ==> a == DecodeAction::YieldError,
{
    match outcome {
        DecodeOutcome::Frame => DecodeAction::YieldFrame,
        DecodeOutcome::NoFrame => DecodeAction::PopSample,
        DecodeOutcome::Sample => DecodeAction::WriteSample,
        DecodeOutcome::NoSample => DecodeAction::NeedPackets,
        DecodeOutcome::Written => DecodeAction::ReadFrame,
        DecodeOutcome::WriteFailed => DecodeAction::YieldError,
    }
}

/// Size of each chroma plane of a YUV 4:2:0 frame of `width` by `height`
/// luma samples: half as wide and half as high, rounded down.
pub fn chroma_extent(width: u32, height: u32) -> (r: (u32, u32))
    ensures
        r.0 == width / 2,
        r.1 == height / 2,
{
    (width / 2, height / 2)
}


/// What the media event source is waiting on when it wakes up.
#[derive(Debug, Clone, Copy, PartialEq, Eq, Structural)]
pub enum MediaInput {
    /// The remote video stream decoded a frame.
    Frame,
    /// The remote video stream failed to decode a frame.
    FrameError,
    /// The remote video stream ended.
    StreamEnd,
    /// The connection went down.
    DisconnectSignal,
    /// The remote video track appeared.
    NewTrack,
}

/// What the media event source does with an input.
#[derive(Debug, Clone, Copy, PartialEq, Eq, Structural)]
pub enum MediaDecision {
    /// Hand out this event.
    Emit(CallEvent),
    /// Drop the input and keep waiting.
    Skip,
    /// Start decoding the new track, then keep waiting.
    StartStream,
}

/// The media event source's decision. While remote video is being decoded,
/// a frame is handed out, a decoding error is skipped, and the end of the
/// video or of the connection is reported as a disconnection; before any
/// video, a disconnection is reported and a new track starts the decoding.
/// Inputs that cannot arrive in a phase (video before any track, a second
/// track) are skipped.
pub fn media_step(has_stream: bool, input: MediaInput) -> (d: MediaDecision)
    ensures
        input == MediaInput::DisconnectSignal ==> d == MediaDecision::Emit(CallEvent::Disconnected),
        has_stream ==> (input == MediaInput::Frame ==> d == MediaDecision::Emit(CallEvent::NewVideoFrame)),
        has_stream ==> (input == MediaInput::FrameError ==> d == MediaDecision::Skip),
        has_stream ==> (input == MediaInput::StreamEnd ==> d == MediaDecision::Emit(CallEvent::Disconnected)),
        has_stream ==> (input == MediaInput::NewTrack ==> d == MediaDecision::Skip),
        !has_stream ==> (input == MediaInput::NewTrack ==> d == MediaDecision::StartStream),
        !has_stream ==> (input == MediaInput::Frame || input == MediaInput::FrameError
            || input == MediaInput::StreamEnd ==> d == MediaDecision::Skip),
{
    match input {
        MediaInput::DisconnectSignal => MediaDecision::Emit(CallEvent::Disconnected),
        MediaInput::NewTrack => if has_stream { MediaDecision::Skip } else { MediaDecision::StartStream },
        MediaInput::Frame => if has_stream { MediaDecision::Emit(CallEvent::NewVideoFrame) } else { MediaDecision::Skip },
        MediaInput::FrameError => MediaDecision::Skip,
        MediaInput::StreamEnd => if has_stream { MediaDecision::Emit(CallEvent::Disconnected) } else { MediaDecision::Skip },
    }
}

/// One poll of the stream of media events: once over, it stays over;
/// otherwise the event is handed out, and it ends the stream exactly when it
/// is the disconnection.
pub open spec fn spec_media_step(finished: bool, event: CallEvent) -> (bool, StreamPoll) {
    if finished {
        (true, StreamPoll::Finished)
    } else {
        (event == CallEvent::Disconnected, StreamPoll::Item(event))
    }
}

/// The answers to a sequence of polls, in order.
pub open spec fn spec_media_run(finished: bool, events: Seq<CallEvent>) -> Seq<StreamPoll>
    decreases events.len(),
{
    if events.len() == 0 {
        Seq::empty()
    } else {
        let (f, out) = spec_media_step(finished, events[0]);
        seq![out] + spec_media_run(f, events.drop_first())
    }
}

/// The state of the stream of media events.
pub struct MediaStream {
    finished: bool,
}

impl MediaStream {
    /// Whether the stream is over.
    pub closed spec fn spec_finished(&self) -> bool {
        self.finished
    }

    /// A stream that has not handed out anything yet.
    pub fn new() -> (r: MediaStream)
        ensures
            !r.spec_finished(),
    {
        MediaStream { finished: false }
    }

    /// Whether the stream is over.
    pub fn is_finished(&self) -> (r: bool)
        ensures
            r == self.spec_finished(),
    {
        self.finished
    }

    /// Answers one poll that produced `event`.
    pub fn poll(&mut self, event: CallEvent) -> (r: StreamPoll)
        ensures
            (final(self).spec_finished(), r) == spec_media_step(old(self).spec_finished(), event),
    {
        if self.finished {
            return StreamPoll::Finished;
        }
        if event == CallEvent::Disconnected {
            self.finished = true;
        }
        StreamPoll::Item(event)
    }
}

/// The media stream ends exactly at the disconnection: at each poll it
/// answers `Finished` exactly when it was over from the start or an earlier
/// event was the disconnection, and otherwise hands out the event itself; so
/// it never ends before the disconnection and hands that out before ending.
pub proof fn lemma_media_ends_at_disconnect(finished: bool, events: Seq<CallEvent>)
    ensures
        spec_media_run(finished, events).len() == events.len(),
        forall|i: int|
            0 <= i < events.len() ==> #[trigger] spec_media_run(finished, events)[i] == (if finished
                || exists|j: int| 0 <= j < i && events[j] == CallEvent::Disconnected {
                StreamPoll::Finished
            } else {
                StreamPoll::Item(events[i])
            }),
    decreases events.len(),
{
    if events.len() > 0 {
        let (f, out) = spec_media_step(finished, events[0]);
        let tail = events.drop_first();
        lemma_media_ends_at_disconnect(f, tail);
        let run = spec_media_run(finished, events);
        assert(run == seq![out] + spec_media_run(f, tail));
        assert forall|i: int| 0 <= i < events.len() implies #[trigger] run[i] == (if finished
            || exists|j: int| 0 <= j < i && events[j] == CallEvent::Disconnected {
            StreamPoll::Finished
        } else {
            StreamPoll::Item(events[i])
        }) by {
            if i > 0 {
                assert(run[i] == spec_media_run(f, tail)[i - 1]);
                assert(tail[i - 1] == events[i]);
                if exists|j: int| 0 <= j < i && events[j] == CallEvent::Disconnected {
                    let j = choose|j: int| 0 <= j < i && events[j] == CallEvent::Disconnected;
                    if j > 0 {
                        assert(tail[j - 1] == events[j]);
                    }
                }
                if exists|j: int| 0 <= j < i - 1 && tail[j] == CallEvent::Disconnected {
                    let j = choose|j: int| 0 <= j < i - 1 && tail[j] == CallEvent::Disconnected;
                    assert(events[j + 1] == tail[j]);
                }
            }
        }
    }
}

} // verus!
