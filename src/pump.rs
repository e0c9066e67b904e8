use vstd::prelude::*;
use crate::envelope::WebSocketMessage;
use crate::frames::{error_frame, error_frame_text};

verus! {

/// Longest time one write to a client may take, in seconds, before the
/// connection is torn down.
pub const SEND_TIMEOUT_SECS: u64 = 5;

/// Lifecycle of one client connection.
#[derive(PartialEq, Eq, Structural, Clone, Copy, Debug)]
pub enum Phase {
    /// Upgraded and subscribed; its two tasks are being started.
    Connecting,
    /// Both the inbound and the outbound task run.
    Established,
    /// One task has ended; the other is being cancelled.
    Draining,
    /// Both tasks have stopped.
    Terminated,
}

/// The two tasks of a connection.
#[derive(PartialEq, Eq, Structural, Clone, Copy, Debug)]
pub enum PumpTask {
    /// Reads frames from the client.
    Inbound,
    /// Writes the topic's messages to the client.
    Outbound,
}

/// What happens to a connection as a whole.
#[derive(PartialEq, Eq, Structural, Clone, Copy, Debug)]
pub enum PumpEvent {
    /// Both tasks have been spawned.
    TasksSpawned,
    /// The given task has ended by itself.
    TaskEnded(PumpTask),
    /// The cancellation signal has been sent to the surviving task.
    AbortSent,
}

/// What the connection's owner does next.
#[derive(PartialEq, Eq, Structural, Clone, Copy, Debug)]
pub enum PumpAction {
    Nothing,
    /// Cancel the given task, without waiting for it.
    Abort(PumpTask),
    /// Detach this connection from its topic, evicting the topic when it has
    /// no subscriber left.
    Release,
}

pub open spec fn other_task(t: PumpTask) -> PumpTask {
    match t {
        PumpTask::Inbound => PumpTask::Outbound,
        PumpTask::Outbound => PumpTask::Inbound,
    }
}

/// The transition table of a connection.
pub open spec fn pump_next(phase: Phase, event: PumpEvent) -> (Phase, PumpAction) {
    match (phase, event) {
        (Phase::Connecting, PumpEvent::TasksSpawned) => (Phase::Established, PumpAction::Nothing),
        (Phase::Established, PumpEvent::TaskEnded(t)) => (
            Phase::Draining,
            PumpAction::Abort(other_task(t)),
        ),
        (Phase::Draining, PumpEvent::AbortSent) => (Phase::Terminated, PumpAction::Release),
        _ => (phase, PumpAction::Nothing),
    }
}

/// The state machine of one client connection.
pub struct ConnectionPump {
    pub phase: Phase,
}

impl ConnectionPump {
    pub fn new() -> (r: Self)
        ensures
            r.phase == Phase::Connecting,
    {
        ConnectionPump { phase: Phase::Connecting }
    }

    /// Moves the connection on by `event` and returns what to do next.
    pub fn step(&mut self, event: PumpEvent) -> (r: PumpAction)
        ensures
            (final(self).phase, r) == pump_next(old(self).phase, event),
    {
        match (self.phase, event) {
            (Phase::Connecting, PumpEvent::TasksSpawned) => {
                self.phase = Phase::Established;
                PumpAction::Nothing
            },
            (Phase::Established, PumpEvent::TaskEnded(t)) => {
                self.phase = Phase::Draining;
                match t {
                    PumpTask::Inbound => PumpAction::Abort(PumpTask::Outbound),
                    PumpTask::Outbound => PumpAction::Abort(PumpTask::Inbound),
                }
            },
            (Phase::Draining, PumpEvent::AbortSent) => {
                self.phase = Phase::Terminated;
                PumpAction::Release
            },
            _ => PumpAction::Nothing,
        }
    }
}

/// Whichever task ends first, an established connection cancels the other
/// one and then releases its subscription, ending terminated; once
/// terminated, nothing moves it.
pub proof fn lemma_teardown(t: PumpTask, event: PumpEvent)
    ensures
        pump_next(Phase::Established, PumpEvent::TaskEnded(t)) == (
            Phase::Draining,
            PumpAction::Abort(other_task(t)),
        ),
        other_task(t) != t,
        pump_next(Phase::Draining, PumpEvent::AbortSent) == (Phase::Terminated, PumpAction::Release),
        pump_next(Phase::Terminated, event) == (Phase::Terminated, PumpAction::Nothing),
{
}

/// One frame read from the client, after its text was read as a message.
pub enum InboundFrame {
    /// A text frame holding a well-formed message.
    Parsed(WebSocketMessage),
    /// A text frame that is not a well-formed message, with what was wrong.
    Malformed(String),
    Ping(Vec<u8>),
    Pong,
    Binary,
    Close,
    /// The transport failed to read.
    ReadFailed,
}

/// What the inbound task does with one frame.
pub enum InboundAction {
    /// Publish the message on the connection's topic, and read on.
    Publish(WebSocketMessage),
    /// Write this text frame to the client only, and read on.
    ReplyText(String),
    /// Answer with a pong carrying these bytes, and read on.
    ReplyPong(Vec<u8>),
    /// Read on.
    Ignore,
    /// End the inbound task.
    Stop,
}

pub enum InboundFrameView {
    Parsed(WebSocketMessage),
    Malformed(Seq<char>),
    Ping(Seq<u8>),
    Pong,
    Binary,
    Close,
    ReadFailed,
}

pub enum InboundActionView {
    Publish(WebSocketMessage),
    ReplyText(Seq<char>),
    ReplyPong(Seq<u8>),
    Ignore,
    Stop,
}

impl View for InboundFrame {
    type V = InboundFrameView;

    open spec fn view(&self) -> InboundFrameView {
        match self {
            InboundFrame::Parsed(m) => InboundFrameView::Parsed(*m),
            InboundFrame::Malformed(d) => InboundFrameView::Malformed(d@),
            InboundFrame::Ping(b) => InboundFrameView::Ping(b@),
            InboundFrame::Pong => InboundFrameView::Pong,
            InboundFrame::Binary => InboundFrameView::Binary,
            InboundFrame::Close => InboundFrameView::Close,
            InboundFrame::ReadFailed => InboundFrameView::ReadFailed,
        }
    }
}

impl View for InboundAction {
    type V = InboundActionView;

    open spec fn view(&self) -> InboundActionView {
        match self {
            InboundAction::Publish(m) => InboundActionView::Publish(*m),
            InboundAction::ReplyText(t) => InboundActionView::ReplyText(t@),
            InboundAction::ReplyPong(b) => InboundActionView::ReplyPong(b@),
            InboundAction::Ignore => InboundActionView::Ignore,
            InboundAction::Stop => InboundActionView::Stop,
        }
    }
}

/// The inbound task's rule for one frame.
pub open spec fn inbound_step(frame: InboundFrameView) -> InboundActionView {
    match frame {
        InboundFrameView::Parsed(m) => InboundActionView::Publish(m),
        InboundFrameView::Malformed(d) => InboundActionView::ReplyText(error_frame_text(d)),
        InboundFrameView::Ping(b) => InboundActionView::ReplyPong(b),
        InboundFrameView::Pong => InboundActionView::Ignore,
        InboundFrameView::Binary => InboundActionView::Ignore,
        InboundFrameView::Close => InboundActionView::Stop,
        InboundFrameView::ReadFailed => InboundActionView::Stop,
    }
}

/// Decides what the inbound task does with one frame.
pub fn on_inbound(frame: InboundFrame) -> (r: InboundAction)
    ensures
        r@ == inbound_step(frame@),
{
    match frame {
        InboundFrame::Parsed(m) => InboundAction::Publish(m),
        InboundFrame::Malformed(d) => InboundAction::ReplyText(error_frame(d.as_str())),
        InboundFrame::Ping(b) => InboundAction::ReplyPong(b),
        InboundFrame::Pong => InboundAction::Ignore,
        InboundFrame::Binary => InboundAction::Ignore,
        InboundFrame::Close => InboundAction::Stop,
        InboundFrame::ReadFailed => InboundAction::Stop,
    }
}

/// A malformed text frame is answered with exactly one error frame, to its
/// sender only, and the inbound task reads on; a well-formed frame that
/// follows is published as it is.
pub proof fn lemma_malformed_frame_keeps_connection(
    description: Seq<char>,
    next: WebSocketMessage,
)
    ensures
        inbound_step(InboundFrameView::Malformed(description)) == InboundActionView::ReplyText(
            error_frame_text(description),
        ),
        inbound_step(InboundFrameView::Malformed(description)) != InboundActionView::Stop,
        inbound_step(InboundFrameView::Parsed(next)) == InboundActionView::Publish(next),
{
}

/// One thing that happens to the outbound task.
pub enum OutboundEvent {
    /// A message came from the topic and was serialized to this text.
    Serialized(String),
    /// A message came from the topic but could not be serialized.
    SerializeFailed,
    /// The subscription fell behind and lost this many older messages.
    Lagged(u64),
    /// The topic's channel has closed.
    ChannelClosed,
    /// The last write completed.
    Written,
    /// The last write failed.
    WriteFailed,
    /// The last write took longer than `SEND_TIMEOUT_SECS`.
    TimedOut,
}

/// What the outbound task does next.
pub enum OutboundAction {
    /// Write this text frame to the client, bounded by the send timeout.
    Write(String),
    /// Wait for the next message.
    Continue,
    /// End the outbound task.
    Stop,
}

pub enum OutboundEventView {
    Serialized(Seq<char>),
    SerializeFailed,
    Lagged(u64),
    ChannelClosed,
    Written,
    WriteFailed,
    TimedOut,
}

pub enum OutboundActionView {
    Write(Seq<char>),
    Continue,
    Stop,
}

impl View for OutboundEvent {
    type V = OutboundEventView;

    open spec fn view(&self) -> OutboundEventView {
        match self {
            OutboundEvent::Serialized(t) => OutboundEventView::Serialized(t@),
            OutboundEvent::SerializeFailed => OutboundEventView::SerializeFailed,
            OutboundEvent::Lagged(n) => OutboundEventView::Lagged(*n),
            OutboundEvent::ChannelClosed => OutboundEventView::ChannelClosed,
            OutboundEvent::Written => OutboundEventView::Written,
            OutboundEvent::WriteFailed => OutboundEventView::WriteFailed,
            OutboundEvent::TimedOut => OutboundEventView::TimedOut,
        }
    }
}

impl View for OutboundAction {
    type V = OutboundActionView;

    open spec fn view(&self) -> OutboundActionView {
        match self {
            OutboundAction::Write(t) => OutboundActionView::Write(t@),
            OutboundAction::Continue => OutboundActionView::Continue,
            OutboundAction::Stop => OutboundActionView::Stop,
        }
    }
}

/// The outbound task's rule: a serialization failure skips one message, a
/// lagging subscription reads on past the gap, and a failed or timed-out
/// write or a closed channel ends the task.
pub open spec fn outbound_step(event: OutboundEventView) -> OutboundActionView {
    match event {
        OutboundEventView::Serialized(t) => OutboundActionView::Write(t),
        OutboundEventView::SerializeFailed => OutboundActionView::Continue,
        OutboundEventView::Lagged(_) => OutboundActionView::Continue,
        OutboundEventView::ChannelClosed => OutboundActionView::Stop,
        OutboundEventView::Written => OutboundActionView::Continue,
        OutboundEventView::WriteFailed => OutboundActionView::Stop,
        OutboundEventView::TimedOut => OutboundActionView::Stop,
    }
}

/// Decides what the outbound task does after `event`.
pub fn on_outbound(event: OutboundEvent) -> (r: OutboundAction)
    ensures
        r@ == outbound_step(event@),
{
    match event {
        OutboundEvent::Serialized(t) => OutboundAction::Write(t),
        OutboundEvent::SerializeFailed => OutboundAction::Continue,
        OutboundEvent::Lagged(_) => OutboundAction::Continue,
        OutboundEvent::ChannelClosed => OutboundAction::Stop,
        OutboundEvent::Written => OutboundAction::Continue,
        OutboundEvent::WriteFailed => OutboundAction::Stop,
        OutboundEvent::TimedOut => OutboundAction::Stop,
    }
}

} // verus!
