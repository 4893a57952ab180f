//! The broadcaster's own rules: the slot that keeps the latest frame for
//! late joiners, and what a transport's send task does with each thing its
//! subscription yields.

use vstd::prelude::*;
use crate::frame::{FrameView, TerminalFrame};
use crate::protocol::{ServerMessage, ServerMessageView};
use crate::throttle::{elapsed_nanos, initial_last_emit, interval_nanos, min_gap_nanos, start_reading};

verus! {

/// Capacity of the broadcast ring, in frames.
pub const BROADCAST_CAPACITY: usize = 256;

/// Capacity of the queue of commands toward the PTY host and toward the
/// emulator loop.
pub const COMMAND_QUEUE_CAPACITY: usize = 1024;

/// The session's "last frame" slot: empty, or the latest message published.
#[derive(Debug, PartialEq, Eq)]
pub struct FrameSlot {
    last: Option<ServerMessage>,
}

impl View for FrameSlot {
    type V = Option<ServerMessageView>;

    closed spec fn view(&self) -> Option<ServerMessageView> {
        match self.last {
            Some(msg) => Some(msg@),
            None => None,
        }
    }
}

/// The view of a message that may be absent.
pub open spec fn message_view(msg: Option<ServerMessage>) -> Option<ServerMessageView> {
    match msg {
        Some(m) => Some(m@),
        None => None,
    }
}

/// The slot's content after a frame is published: that frame, whatever the
/// slot held before.
pub open spec fn published(frame: FrameView) -> Option<ServerMessageView> {
    Some(ServerMessageView::Frame(frame))
}

/// The first message of a subscriber that attaches while the slot holds
/// `slot`: the slot's content itself, or none while the slot is empty.
pub open spec fn first_for(slot: Option<ServerMessageView>) -> Option<ServerMessageView> {
    slot
}

impl FrameSlot {
    /// An empty slot.
    pub fn new() -> (slot: FrameSlot)
        ensures
            slot@ is None,
    {
        FrameSlot { last: None }
    }

    /// Stores a new frame in the slot, in place of what it held, and hands
    /// back the message to publish to the subscribers.
    pub fn publish(&mut self, frame: TerminalFrame) -> (msg: ServerMessage)
        ensures
            msg@ == ServerMessageView::Frame(frame@),
            final(self)@ == published(frame@),
    {
        let msg = ServerMessage::Frame(frame);
        self.last = Some(msg.clone());
        msg
    }

    /// The first message for a subscriber that attaches now: the slot's
    /// content, unchanged, or nothing while no frame was published.
    pub fn first_message(&self) -> (first: Option<ServerMessage>)
        ensures
            message_view(first) == first_for(self@),
    {
        match &self.last {
            Some(msg) => Some(msg.clone()),
            None => None,
        }
    }
}

/// A late joiner sees the latest frame at once: after frame `f` is
/// published, and before any other is, the first message of a new
/// subscriber is `f`.
pub proof fn lemma_reattach_sees_last_frame(f: FrameView)
    ensures
        first_for(published(f)) == Some(ServerMessageView::Frame(f)),
{
}

/// The first message of a new subscriber, if there is one, is the content
/// of the slot at the time of subscription.
pub proof fn lemma_first_message_is_slot(slot: Option<ServerMessageView>)
    ensures
        first_for(slot) == slot,
        first_for(slot) is Some <==> slot is Some,
{
}

/// What a send task's subscription yields, or what became of its last
/// transmission.
#[derive(Debug, PartialEq, Eq)]
pub enum SenderEvent {
    /// The next message in publication order.
    Frame(ServerMessage),
    /// The subscriber fell behind the ring by this many messages.
    Lagged(u64),
    /// The broadcast source is gone.
    Closed,
    /// The transport refused the last transmission.
    SendFailed,
}

/// A sender event as contracts see it.
pub enum SenderEventView {
    Frame(ServerMessageView),
    Lagged(u64),
    Closed,
    SendFailed,
}

impl View for SenderEvent {
    type V = SenderEventView;

    open spec fn view(&self) -> SenderEventView {
        match *self {
            SenderEvent::Frame(msg) => SenderEventView::Frame(msg@),
            SenderEvent::Lagged(missed) => SenderEventView::Lagged(missed),
            SenderEvent::Closed => SenderEventView::Closed,
            SenderEvent::SendFailed => SenderEventView::SendFailed,
        }
    }
}

/// What the send task does next.
#[derive(Debug, PartialEq, Eq)]
pub enum SendStep {
    /// Encode the message and transmit it, then receive again.
    Send(ServerMessage),
    /// Transmit nothing and receive again.
    Skip,
    /// Leave the task.
    Stop,
}

/// A send step as contracts see it.
pub enum SendStepView {
    Send(ServerMessageView),
    Skip,
    Stop,
}

impl View for SendStep {
    type V = SendStepView;

    open spec fn view(&self) -> SendStepView {
        match *self {
            SendStep::Send(msg) => SendStepView::Send(msg@),
            SendStep::Skip => SendStepView::Skip,
            SendStep::Stop => SendStepView::Stop,
        }
    }
}

/// The state of one transport's send task: the clock's reading at its last
/// throttled transmission.
#[derive(Clone, Copy, Debug, PartialEq, Eq, Structural)]
pub struct SendTask {
    pub last_sent: u64,
}

impl SendTask {
    /// A frame that arrives at `now` is too early for this transport.
    pub open spec fn too_early(self, min_interval_ms: u32, now: u64) -> bool {
        min_interval_ms > 0 && elapsed_nanos(self.last_sent, now) < interval_nanos(min_interval_ms)
    }

    /// The step that an event calls for: a frame is sent unless it is too
    /// early, in which case it is dropped for this transport; a lag is
    /// skipped; the end of the source or a failed transmission ends the
    /// task.
    pub open spec fn step_for(
        self,
        event: SenderEventView,
        min_interval_ms: u32,
        now: u64,
    ) -> SendStepView {
        match event {
            SenderEventView::Frame(msg) => if self.too_early(min_interval_ms, now) {
                SendStepView::Skip
            } else {
                SendStepView::Send(msg)
            },
            SenderEventView::Lagged(_) => SendStepView::Skip,
            SenderEventView::Closed => SendStepView::Stop,
            SenderEventView::SendFailed => SendStepView::Stop,
        }
    }

    /// The state after an event: the reading moves to `now` when a frame is
    /// sent under a throttle, and stays otherwise.
    pub open spec fn after(self, event: SenderEventView, min_interval_ms: u32, now: u64) -> SendTask {
        if event is Frame && min_interval_ms > 0 && !self.too_early(min_interval_ms, now) {
            SendTask { last_sent: now }
        } else {
            self
        }
    }

    /// A send task that starts at the reading `now`.
    pub fn new(now: u64) -> (task: SendTask)
        ensures
            task.last_sent == initial_last_emit(now),
    {
        SendTask { last_sent: start_reading(now) }
    }

    /// Decides what to do with one event, given the session's minimum
    /// interval and the clock's reading at this moment.
    pub fn step(&mut self, event: SenderEvent, min_interval_ms: u32, now: u64) -> (next: SendStep)
        ensures
            next@ == old(self).step_for(event@, min_interval_ms, now),
            *final(self) == old(self).after(event@, min_interval_ms, now),
    {
        match event {
            SenderEvent::Frame(msg) => {
                if min_interval_ms > 0 {
                    let gap: u64 = min_gap_nanos(min_interval_ms);
                    let elapsed: u64 = now.saturating_sub(self.last_sent);
                    if elapsed < gap {
                        return SendStep::Skip;
                    }
                    self.last_sent = now;
                }
                SendStep::Send(msg)
            },
            SenderEvent::Lagged(_) => SendStep::Skip,
            SenderEvent::Closed => SendStep::Stop,
            SenderEvent::SendFailed => SendStep::Stop,
        }
    }
}

/// A lag never ends a send task, and the next frame it receives goes out
/// as far as the throttle allows: with throttling off, always.
pub proof fn lemma_lag_then_resume(
    task: SendTask,
    missed: u64,
    msg: ServerMessageView,
    at_lag: u64,
    at_frame: u64,
)
    ensures
        task.step_for(SenderEventView::Lagged(missed), 0, at_lag) == SendStepView::Skip,
        task.after(SenderEventView::Lagged(missed), 0, at_lag) == task,
        task.after(SenderEventView::Lagged(missed), 0, at_lag).step_for(
            SenderEventView::Frame(msg),
            0,
            at_frame,
        ) == SendStepView::Send(msg),
{
}

/// Under a minimum interval, a frame is transmitted only when that interval
/// has elapsed since the transport's last throttled transmission, and the
/// reading then moves to this transmission.
pub proof fn lemma_send_keeps_interval(
    task: SendTask,
    msg: ServerMessageView,
    min_interval_ms: u32,
    now: u64,
)
    requires
        min_interval_ms > 0,
        task.step_for(SenderEventView::Frame(msg), min_interval_ms, now) is Send,
    ensures
        now - task.last_sent >= interval_nanos(min_interval_ms),
        task.after(SenderEventView::Frame(msg), min_interval_ms, now).last_sent == now,
{
}

/// One thing that reaches a send task, with the session's minimum interval
/// and the clock's reading at that moment.
pub struct Delivery {
    pub event: SenderEventView,
    pub min_interval_ms: u32,
    pub now: u64,
}

/// The messages that a run of deliveries publishes to the task, in order.
pub open spec fn frames_of(deliveries: Seq<Delivery>) -> Seq<ServerMessageView>
    decreases deliveries.len(),
{
    if deliveries.len() == 0 {
        Seq::<ServerMessageView>::empty()
    } else {
        let rest = frames_of(deliveries.drop_first());
        match deliveries[0].event {
            SenderEventView::Frame(msg) => seq![msg] + rest,
            _ => rest,
        }
    }
}

/// Whether `part` can be had from `whole` by leaving elements out.
pub open spec fn is_subsequence(part: Seq<ServerMessageView>, whole: Seq<ServerMessageView>) -> bool
    decreases whole.len(),
{
    if part.len() == 0 {
        true
    } else if whole.len() == 0 {
        false
    } else if part[0] == whole[0] && is_subsequence(part.drop_first(), whole.drop_first()) {
        true
    } else {
        is_subsequence(part, whole.drop_first())
    }
}

impl SendTask {
    /// The messages that the task transmits over a run of deliveries, in
    /// order; the task takes nothing more once a step ends it.
    pub open spec fn transmitted(self, deliveries: Seq<Delivery>) -> Seq<ServerMessageView>
        decreases deliveries.len(),
    {
        if deliveries.len() == 0 {
            Seq::<ServerMessageView>::empty()
        } else {
            let d = deliveries[0];
            let rest = self.after(d.event, d.min_interval_ms, d.now).transmitted(
                deliveries.drop_first(),
            );
            match self.step_for(d.event, d.min_interval_ms, d.now) {
                SendStepView::Send(msg) => seq![msg] + rest,
                SendStepView::Skip => rest,
                SendStepView::Stop => Seq::<ServerMessageView>::empty(),
            }
        }
    }
}

/// A subscriber sees frames in publication order: what a send task
/// transmits is what was published to it, in the same order, with frames
/// left out where the throttle dropped them or the task had ended.
pub proof fn lemma_transmits_in_publication_order(task: SendTask, deliveries: Seq<Delivery>)
    ensures
        is_subsequence(task.transmitted(deliveries), frames_of(deliveries)),
    decreases deliveries.len(),
{
    if deliveries.len() > 0 {
        let d = deliveries[0];
        let next = task.after(d.event, d.min_interval_ms, d.now);
        let rest = deliveries.drop_first();
        lemma_transmits_in_publication_order(next, rest);
        let sent = task.transmitted(deliveries);
        let all = frames_of(deliveries);
        match task.step_for(d.event, d.min_interval_ms, d.now) {
            SendStepView::Send(msg) => {
                assert(sent.drop_first() =~= next.transmitted(rest));
                assert(all.drop_first() =~= frames_of(rest));
            },
            SendStepView::Skip => {
                if d.event is Frame {
                    assert(all.drop_first() =~= frames_of(rest));
                    lemma_skip_head(next.transmitted(rest), all);
                }
            },
            SendStepView::Stop => {},
        }
    }
}

/// What can be had from the rest of a sequence can be had from the whole.
proof fn lemma_skip_head(part: Seq<ServerMessageView>, whole: Seq<ServerMessageView>)
    requires
        whole.len() > 0,
        is_subsequence(part, whole.drop_first()),
    ensures
        is_subsequence(part, whole),
{
}

/// Whether every delivery of a run is a frame or a report of lag, with
/// throttling off.
pub open spec fn unthrottled_frames_and_lag(deliveries: Seq<Delivery>) -> bool {
    forall|i: int|
        0 <= i < deliveries.len() ==> (#[trigger] deliveries[i]).min_interval_ms == 0 && (
        deliveries[i].event is Frame || deliveries[i].event is Lagged)
}

/// With throttling off, lag costs a subscriber nothing that reaches it:
/// every frame that is delivered to the task is transmitted, in order,
/// however often lag is reported in between.
pub proof fn lemma_unthrottled_transmits_all(task: SendTask, deliveries: Seq<Delivery>)
    requires
        unthrottled_frames_and_lag(deliveries),
    ensures
        task.transmitted(deliveries) == frames_of(deliveries),
    decreases deliveries.len(),
{
    if deliveries.len() > 0 {
        let d = deliveries[0];
        let rest = deliveries.drop_first();
        lemma_unthrottled_transmits_all(task.after(d.event, d.min_interval_ms, d.now), rest);
    }
}

} // verus!
