use crate::error::SpeechApiError;
use crate::types::Event;
use crate::wire::{parse_message, spec_parse_message, spec_parse_problem};
use vstd::prelude::*;

verus! {

/// One thing read from the inbound connection.
#[derive(Debug, Clone, PartialEq)]
pub enum Frame {
    /// A text frame with its body.
    Text(String),
    /// A binary frame. Reserved; nothing is read from it.
    Binary(Vec<u8>),
    /// The peer's closing frame.
    Close,
    /// Any other frame of the transport, such as a ping.
    Other,
    /// The transport failed while reading; the text says how.
    TransportError(String),
}

/// Whether the read loop still forwards events.
#[derive(Debug, Clone, Copy, PartialEq, Eq, Structural)]
pub enum ReceiverState {
    Running,
    Closed,
}

/// What accepting one frame did.
#[derive(Debug, Clone, PartialEq)]
pub enum FrameOutcome {
    /// The frame's events, this many, were queued in their order.
    Forwarded(usize),
    /// The text was not a message. It is reported and the loop goes on.
    Malformed(SpeechApiError),
    /// The frame carries nothing for the consumer.
    Ignored,
    /// The loop has ended: now, or before this frame came.
    Stopped,
}

/// The receiver as a mathematical value: its state, and the events that
/// were queued and not yet taken, oldest first.
pub struct ReceiverModel {
    pub state: ReceiverState,
    pub pending: Seq<Event>,
}

impl ReceiverModel {
    /// The receiver after one frame. While running, a text frame that
    /// parses adds its events behind those already queued; one that does not
    /// parse changes nothing; a close frame or a transport error closes;
    /// anything else changes nothing. Once closed, frames change nothing.
    pub open spec fn after_frame(self, frame: Frame) -> ReceiverModel {
        if self.state is Closed {
            self
        } else {
            match frame {
                Frame::Text(text) => match spec_parse_message(text@) {
                    Some(events) => ReceiverModel {
                        state: ReceiverState::Running,
                        pending: self.pending + events,
                    },
                    None => self,
                },
                Frame::Close => ReceiverModel { state: ReceiverState::Closed, pending: self.pending },
                Frame::TransportError(_) => ReceiverModel {
                    state: ReceiverState::Closed,
                    pending: self.pending,
                },
                _ => self,
            }
        }
    }

    /// The receiver after a run of frames, in their order.
    pub open spec fn after_frames(self, frames: Seq<Frame>) -> ReceiverModel
        decreases frames.len(),
    {
        if frames.len() == 0 {
            self
        } else {
            self.after_frames(frames.drop_last()).after_frame(frames.last())
        }
    }

    /// The event that the consumer gets next, if one is queued.
    pub open spec fn next(self) -> Option<Event> {
        if self.pending.len() > 0 {
            Some(self.pending[0])
        } else {
            None
        }
    }

    /// The receiver after the consumer took what `next` offers.
    pub open spec fn after_take(self) -> ReceiverModel {
        if self.pending.len() > 0 {
            ReceiverModel { state: self.state, pending: self.pending.drop_first() }
        } else {
            self
        }
    }
}

/// What `accept_frame` reports for a frame that arrives in a given state.
pub open spec fn spec_outcome_matches(
    before: ReceiverModel,
    frame: Frame,
    outcome: FrameOutcome,
) -> bool {
    if before.state is Closed {
        outcome is Stopped
    } else {
        match frame {
            Frame::Text(text) => match spec_parse_message(text@) {
                Some(events) => outcome == FrameOutcome::Forwarded(events.len() as usize),
                None => outcome is Malformed && outcome->Malformed_0 is JsonError
                    && outcome->Malformed_0->JsonError_0@ == spec_parse_problem(text@),
            },
            Frame::Close => outcome is Stopped,
            Frame::TransportError(_) => outcome is Stopped,
            _ => outcome is Ignored,
        }
    }
}

/// The decode-and-forward worker of the inbound connection, with the queue
/// between it and the consumer.
#[derive(Debug)]
pub struct EventReceiver {
    state: ReceiverState,
    queue: Vec<Event>,
}

impl View for EventReceiver {
    type V = ReceiverModel;

    closed spec fn view(&self) -> ReceiverModel {
        ReceiverModel { state: self.state, pending: self.queue@ }
    }
}

impl EventReceiver {
    /// A running receiver with nothing queued.
    pub fn new() -> (r: Self)
        ensures
            r@.state is Running,
            r@.pending == Seq::<Event>::empty(),
    {
        EventReceiver { state: ReceiverState::Running, queue: Vec::new() }
    }

    pub fn state(&self) -> (r: ReceiverState)
        ensures
            r == self@.state,
    {
        self.state
    }

    /// Whether the stream has ended for the consumer: the loop is closed
    /// and every queued event was taken.
    pub fn is_finished(&self) -> (r: bool)
        ensures
            r == (self@.state is Closed && self@.pending.len() == 0),
    {
        self.state == ReceiverState::Closed && self.queue.len() == 0
    }

    /// Handles one frame read from the connection.
    pub fn accept_frame(&mut self, frame: &Frame) -> (outcome: FrameOutcome)
        ensures
            final(self)@ == old(self)@.after_frame(*frame),
            spec_outcome_matches(old(self)@, *frame, outcome),
    {
        if self.state == ReceiverState::Closed {
            return FrameOutcome::Stopped;
        }
        match frame {
            Frame::Text(text) => match parse_message(text.as_str()) {
                Ok(message) => {
                    let mut events = message.events;
                    let count: usize = events.len();
                    self.queue.append(&mut events);
                    FrameOutcome::Forwarded(count)
                },
                Err(problem) => FrameOutcome::Malformed(problem),
            },
            Frame::Close => {
                self.state = ReceiverState::Closed;
                FrameOutcome::Stopped
            },
            Frame::TransportError(_) => {
                self.state = ReceiverState::Closed;
                FrameOutcome::Stopped
            },
            _ => FrameOutcome::Ignored,
        }
    }

    /// The consumer went away: the loop stops forwarding.
    pub fn consumer_dropped(&mut self)
        ensures
            final(self)@.state is Closed,
            final(self)@.pending == old(self)@.pending,
    {
        self.state = ReceiverState::Closed;
    }

    /// Takes the oldest queued event. `None` means that nothing is queued:
    /// the end of the stream where the receiver is closed.
    pub fn next_event(&mut self) -> (r: Option<Event>)
        ensures
            r == old(self)@.next(),
            final(self)@ == old(self)@.after_take(),
    {
        if self.queue.len() > 0 {
            let event = self.queue.remove(0);
            assert(self.queue@ =~= old(self).queue@.drop_first());
            Some(event)
        } else {
            None
        }
    }
}

/// Text that is no message changes nothing and stops nothing: the frame
/// that follows is handled as if the malformed one had never come.
pub proof fn lemma_malformed_text_is_skipped(before: ReceiverModel, malformed: String, following: Frame)
    requires
        spec_parse_message(malformed@) is None,
    ensures
        before.after_frame(Frame::Text(malformed)) == before,
        before.after_frames(seq![Frame::Text(malformed), following]) == before.after_frame(
            following,
        ),
{
    let frames = seq![Frame::Text(malformed), following];
    assert(frames.drop_last() =~= seq![Frame::Text(malformed)]);
    assert(frames.drop_last().drop_last() =~= Seq::<Frame>::empty());
    reveal_with_fuel(ReceiverModel::after_frames, 3);
}

/// One more frame is handled after all the frames before it.
pub proof fn lemma_after_frames_push(before: ReceiverModel, frames: Seq<Frame>, frame: Frame)
    ensures
        before.after_frames(frames.push(frame)) == before.after_frames(frames).after_frame(frame),
{
    assert(frames.push(frame).drop_last() =~= frames);
}

/// Events leave in the order in which their frames arrived: after three
/// text frames of one event each, a running receiver with an empty queue
/// hands out the first frame's event, then the second's, then the third's,
/// and then has nothing queued.
pub proof fn lemma_arrival_order(
    before: ReceiverModel,
    a: String,
    b: String,
    c: String,
    first: Event,
    second: Event,
    third: Event,
)
    requires
        before.state is Running,
        before.pending.len() == 0,
        spec_parse_message(a@) == Some(seq![first]),
        spec_parse_message(b@) == Some(seq![second]),
        spec_parse_message(c@) == Some(seq![third]),
    ensures
        ({
            let after = before.after_frames(seq![Frame::Text(a), Frame::Text(b), Frame::Text(c)]);
            &&& after.state is Running
            &&& after.pending == seq![first, second, third]
            &&& after.next() == Some(first)
            &&& after.after_take().next() == Some(second)
            &&& after.after_take().after_take().next() == Some(third)
            &&& after.after_take().after_take().after_take().next() is None
        }),
{
    let none = Seq::<Frame>::empty();
    lemma_after_frames_push(before, none, Frame::Text(a));
    lemma_after_frames_push(before, none.push(Frame::Text(a)), Frame::Text(b));
    lemma_after_frames_push(before, none.push(Frame::Text(a)).push(Frame::Text(b)), Frame::Text(c));
    let frames = seq![Frame::Text(a), Frame::Text(b), Frame::Text(c)];
    assert(frames =~= none.push(Frame::Text(a)).push(Frame::Text(b)).push(Frame::Text(c)));
    let after = before.after_frames(frames);
    assert(after.pending =~= seq![first, second, third]);
    assert(after.after_take().pending =~= seq![second, third]);
    assert(after.after_take().after_take().pending =~= seq![third]);
    assert(after.after_take().after_take().after_take().pending =~= Seq::<Event>::empty());
}

/// Whatever the frames, what was queued stays queued and keeps its place:
/// frames only ever add behind it.
pub proof fn lemma_frames_only_append(before: ReceiverModel, frames: Seq<Frame>)
    ensures
        before.pending.is_prefix_of(before.after_frames(frames).pending),
    decreases frames.len(),
{
    if frames.len() > 0 {
        lemma_frames_only_append(before, frames.drop_last());
        let mid = before.after_frames(frames.drop_last());
        let end = mid.after_frame(frames.last());
        assert(mid.pending.is_prefix_of(end.pending));
    }
}

} // verus!
