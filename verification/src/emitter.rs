//! The emulator loop's own decisions: when to apply, when to sleep and when
//! to emit a frame. The loop around it performs each action and reports the
//! next event.

use vstd::prelude::*;
use crate::throttle::{
    elapsed_nanos, initial_last_emit, interval_nanos, min_gap_nanos, remaining_nanos,
    start_reading,
};

verus! {

/// The two conditions of the loop.
#[derive(Clone, Copy, Debug, PartialEq, Eq, Structural)]
pub enum LoopPhase {
    /// Awaiting a command, or draining the queue after one.
    Running,
    /// Sleeping until the next allowed emission.
    Throttling,
}

/// What the loop around the emulator observed.
#[derive(Clone, Copy, Debug, PartialEq, Eq, Structural)]
pub enum LoopEvent {
    /// A command was taken from the queue and is ready to be applied.
    Command,
    /// A poll found nothing immediately available. It carries the clock's
    /// reading and the session's minimum interval at that moment.
    Drained { now: u64, min_interval_ms: u32 },
    /// A sleep ended. It carries the clock's reading.
    Woke { now: u64 },
    /// The queue closed.
    Closed,
}

/// What the loop around the emulator has to do next.
#[derive(Clone, Copy, Debug, PartialEq, Eq, Structural)]
pub enum LoopAction {
    /// Feed the command to the emulator, then poll the queue without
    /// blocking and report `Command` or `Drained`.
    Apply,
    /// Poll the queue without blocking and report `Command` or `Drained`.
    Poll,
    /// Sleep for this many nanoseconds, then report `Woke`.
    Sleep(u64),
    /// Build a frame and publish it, then wait for the next command.
    Emit,
    /// Wait for the next command and report `Command` or `Closed`.
    Wait,
    /// Leave the loop.
    Stop,
}

/// The state of the emulator loop between two events.
#[derive(Clone, Copy, Debug, PartialEq, Eq, Structural)]
pub struct EmulatorLoop {
    pub phase: LoopPhase,
    /// Commands were applied that no frame shows yet.
    pub pending: bool,
    /// The clock's reading at the last emission.
    pub last_emit: u64,
    /// While throttling: the gap after `last_emit`, in nanoseconds, that the
    /// sleep waits out.
    pub min_gap: u64,
}

impl EmulatorLoop {
    /// The loop sleeps only for a frame that is due.
    pub open spec fn wf(self) -> bool {
        self.phase == LoopPhase::Throttling ==> self.pending
    }

    /// The state after an emission at `now`.
    pub open spec fn emitted_at(self, now: u64) -> EmulatorLoop {
        EmulatorLoop { phase: LoopPhase::Running, pending: false, last_emit: now, min_gap: 0 }
    }

    /// The state after one event.
    pub open spec fn next(self, event: LoopEvent) -> EmulatorLoop {
        match event {
            LoopEvent::Command => EmulatorLoop { pending: true, ..self },
            LoopEvent::Drained { now, min_interval_ms } => if !self.pending {
                self
            } else if remaining_nanos(min_interval_ms, self.last_emit, now) > 0 {
                EmulatorLoop {
                    phase: LoopPhase::Throttling,
                    min_gap: interval_nanos(min_interval_ms) as u64,
                    ..self
                }
            } else {
                self.emitted_at(now)
            },
            LoopEvent::Woke { now } => if self.phase == LoopPhase::Throttling && self.pending
                && elapsed_nanos(self.last_emit, now) >= self.min_gap {
                self.emitted_at(now)
            } else {
                self
            },
            LoopEvent::Closed => self,
        }
    }

    /// The action that one event calls for.
    pub open spec fn action(self, event: LoopEvent) -> LoopAction {
        match event {
            LoopEvent::Command => LoopAction::Apply,
            LoopEvent::Drained { now, min_interval_ms } => if !self.pending {
                LoopAction::Wait
            } else if remaining_nanos(min_interval_ms, self.last_emit, now) > 0 {
                LoopAction::Sleep(remaining_nanos(min_interval_ms, self.last_emit, now) as u64)
            } else {
                LoopAction::Emit
            },
            LoopEvent::Woke { now } => if self.phase == LoopPhase::Throttling && self.pending {
                if elapsed_nanos(self.last_emit, now) >= self.min_gap {
                    LoopAction::Emit
                } else {
                    LoopAction::Sleep((self.min_gap - elapsed_nanos(self.last_emit, now)) as u64)
                }
            } else if self.pending {
                LoopAction::Poll
            } else {
                LoopAction::Wait
            },
            LoopEvent::Closed => LoopAction::Stop,
        }
    }

    /// The state after a run of events.
    pub open spec fn run(self, events: Seq<LoopEvent>) -> EmulatorLoop
        decreases events.len(),
    {
        if events.len() == 0 {
            self
        } else {
            self.next(events[0]).run(events.drop_first())
        }
    }

    /// The clock readings at which a run of events emits a frame, in order.
    pub open spec fn emit_times(self, events: Seq<LoopEvent>) -> Seq<u64>
        decreases events.len(),
    {
        if events.len() == 0 {
            Seq::<u64>::empty()
        } else {
            let rest = self.next(events[0]).emit_times(events.drop_first());
            if self.action(events[0]) == LoopAction::Emit {
                seq![event_time(events[0])] + rest
            } else {
                rest
            }
        }
    }

    /// A loop that starts at the reading `now`, with nothing pending.
    pub fn new(now: u64) -> (lp: EmulatorLoop)
        ensures
            lp == (EmulatorLoop {
                phase: LoopPhase::Running,
                pending: false,
                last_emit: initial_last_emit(now),
                min_gap: 0,
            }),
            lp.wf(),
    {
        EmulatorLoop {
            phase: LoopPhase::Running,
            pending: false,
            last_emit: start_reading(now),
            min_gap: 0,
        }
    }

    /// Takes one event and says what to do next.
    pub fn step(&mut self, event: LoopEvent) -> (action: LoopAction)
        requires
            old(self).wf(),
        ensures
            action == old(self).action(event),
            *final(self) == old(self).next(event),
            final(self).wf(),
    {
        match event {
            LoopEvent::Command => {
                self.pending = true;
                LoopAction::Apply
            },
            LoopEvent::Drained { now, min_interval_ms } => {
                if !self.pending {
                    return LoopAction::Wait;
                }
                let gap: u64 = min_gap_nanos(min_interval_ms);
                let elapsed: u64 = now.saturating_sub(self.last_emit);
                if elapsed < gap {
                    self.phase = LoopPhase::Throttling;
                    self.min_gap = gap;
                    LoopAction::Sleep(gap - elapsed)
                } else {
                    self.phase = LoopPhase::Running;
                    self.pending = false;
                    self.last_emit = now;
                    self.min_gap = 0;
                    LoopAction::Emit
                }
            },
            LoopEvent::Woke { now } => {
                if self.phase == LoopPhase::Throttling && self.pending {
                    let elapsed: u64 = now.saturating_sub(self.last_emit);
                    if elapsed >= self.min_gap {
                        self.phase = LoopPhase::Running;
                        self.pending = false;
                        self.last_emit = now;
                        self.min_gap = 0;
                        LoopAction::Emit
                    } else {
                        LoopAction::Sleep(self.min_gap - elapsed)
                    }
                } else if self.pending {
                    LoopAction::Poll
                } else {
                    LoopAction::Wait
                }
            },
            LoopEvent::Closed => LoopAction::Stop,
        }
    }
}

/// The clock's reading that an event carries; zero for one that carries
/// none.
pub open spec fn event_time(event: LoopEvent) -> u64 {
    match event {
        LoopEvent::Drained { now, .. } => now,
        LoopEvent::Woke { now } => now,
        _ => 0,
    }
}

/// Every event of the run is the arrival of a command.
pub open spec fn all_commands(events: Seq<LoopEvent>) -> bool {
    forall|i: int| 0 <= i < events.len() ==> events[i] == LoopEvent::Command
}

/// No event of the run is the arrival of a command.
pub open spec fn no_commands(events: Seq<LoopEvent>) -> bool {
    forall|i: int| 0 <= i < events.len() ==> events[i] != LoopEvent::Command
}

/// Every poll of the run that found the queue empty saw the minimum
/// interval `min_interval_ms`.
pub open spec fn interval_fixed(events: Seq<LoopEvent>, min_interval_ms: u32) -> bool {
    forall|i: int|
        0 <= i < events.len() ==> (#[trigger] events[i] matches LoopEvent::Drained {
            min_interval_ms: seen,
            ..
        } ==> seen == min_interval_ms)
}

/// The loop keeps its invariant over every event.
pub proof fn lemma_next_keeps_wf(lp: EmulatorLoop, event: LoopEvent)
    requires
        lp.wf(),
    ensures
        lp.next(event).wf(),
{
}

/// The arrival of commands alone emits nothing, however many arrive; it
/// leaves a frame due.
pub proof fn lemma_commands_emit_nothing(lp: EmulatorLoop, burst: Seq<LoopEvent>)
    requires
        all_commands(burst),
    ensures
        lp.emit_times(burst).len() == 0,
        burst.len() > 0 ==> lp.run(burst).pending,
        lp.run(burst).last_emit == lp.last_emit,
        lp.run(burst).phase == lp.phase,
        lp.run(burst).min_gap == lp.min_gap,
        burst.len() == 0 ==> lp.run(burst) == lp,
        lp.pending ==> lp.run(burst).pending,
    decreases burst.len(),
{
    if burst.len() > 0 {
        let rest = burst.drop_first();
        lemma_commands_emit_nothing(lp.next(burst[0]), rest);
    }
}

/// Once no frame is due, events other than commands emit nothing.
proof fn lemma_idle_emits_nothing(lp: EmulatorLoop, tail: Seq<LoopEvent>)
    requires
        lp.wf(),
        !lp.pending,
        no_commands(tail),
    ensures
        lp.emit_times(tail).len() == 0,
    decreases tail.len(),
{
    if tail.len() > 0 {
        let rest = tail.drop_first();
        lemma_idle_emits_nothing(lp.next(tail[0]), rest);
    }
}

/// With a frame due, events other than commands emit at most once.
proof fn lemma_due_emits_at_most_once(lp: EmulatorLoop, tail: Seq<LoopEvent>)
    requires
        lp.wf(),
        no_commands(tail),
    ensures
        lp.emit_times(tail).len() <= 1,
    decreases tail.len(),
{
    if tail.len() > 0 {
        let rest = tail.drop_first();
        if lp.action(tail[0]) == LoopAction::Emit {
            lemma_idle_emits_nothing(lp.next(tail[0]), rest);
        } else {
            lemma_due_emits_at_most_once(lp.next(tail[0]), rest);
        }
    }
}

/// The readings at which a run emits split at any point of the run.
pub proof fn lemma_emit_times_split(lp: EmulatorLoop, first: Seq<LoopEvent>, second: Seq<LoopEvent>)
    ensures
        lp.emit_times(first + second) == lp.emit_times(first) + lp.run(first).emit_times(second),
        lp.run(first + second) == lp.run(first).run(second),
    decreases first.len(),
{
    if first.len() > 0 {
        let whole = first + second;
        assert(whole.drop_first() =~= first.drop_first() + second);
        lemma_emit_times_split(lp.next(first[0]), first.drop_first(), second);
    }
}

/// The loop keeps its invariant over every run.
pub proof fn lemma_run_keeps_wf(lp: EmulatorLoop, events: Seq<LoopEvent>)
    requires
        lp.wf(),
    ensures
        lp.run(events).wf(),
    decreases events.len(),
{
    if events.len() > 0 {
        lemma_run_keeps_wf(lp.next(events[0]), events.drop_first());
    }
}

/// Coalescing: a burst of commands, however long, followed by any polls
/// and wake-ups, makes the loop emit at most one frame.
pub proof fn lemma_burst_emits_at_most_once(
    lp: EmulatorLoop,
    burst: Seq<LoopEvent>,
    tail: Seq<LoopEvent>,
)
    requires
        lp.wf(),
        all_commands(burst),
        no_commands(tail),
    ensures
        lp.emit_times(burst + tail).len() <= 1,
{
    lemma_emit_times_split(lp, burst, tail);
    lemma_commands_emit_nothing(lp, burst);
    lemma_run_keeps_wf(lp, burst);
    lemma_due_emits_at_most_once(lp.run(burst), tail);
}

/// With throttling off, a burst of at least one command emits exactly one
/// frame as soon as the queue is found empty, at that reading.
pub proof fn lemma_burst_unthrottled_emits_once(lp: EmulatorLoop, burst: Seq<LoopEvent>, now: u64)
    requires
        lp.wf(),
        all_commands(burst),
        burst.len() > 0,
    ensures
        lp.emit_times(burst + seq![LoopEvent::Drained { now, min_interval_ms: 0 }]) == seq![now],
{
    let tail = seq![LoopEvent::Drained { now, min_interval_ms: 0 }];
    lemma_emit_times_split(lp, burst, tail);
    lemma_commands_emit_nothing(lp, burst);
    let mid = lp.run(burst);
    assert(mid.next(tail[0]).emit_times(tail.drop_first()) =~= Seq::<u64>::empty());
}

/// A single emission keeps the interval: a frame goes out at a poll only
/// when the minimum interval seen by that poll has elapsed since the last
/// emission, and at a wake-up only when the gap that the sleep waits out
/// has.
pub proof fn lemma_emit_keeps_interval(lp: EmulatorLoop, event: LoopEvent)
    requires
        lp.action(event) == LoopAction::Emit,
    ensures
        event matches LoopEvent::Drained { now, min_interval_ms } ==> elapsed_nanos(
            lp.last_emit,
            now,
        ) >= interval_nanos(min_interval_ms),
        event matches LoopEvent::Woke { now } ==> elapsed_nanos(lp.last_emit, now) >= lp.min_gap,
        event is Drained || event is Woke,
        lp.next(event).last_emit == event_time(event),
{
}

/// Throttle: while the minimum interval stays at `min_interval_ms > 0`, the
/// first frame of a run goes out no sooner than that interval after the
/// last emission before the run, and any two consecutive frames of the run
/// are at least that interval apart.
pub proof fn lemma_frames_keep_interval(
    lp: EmulatorLoop,
    events: Seq<LoopEvent>,
    min_interval_ms: u32,
)
    requires
        lp.wf(),
        min_interval_ms > 0,
        interval_fixed(events, min_interval_ms),
        lp.phase == LoopPhase::Throttling ==> lp.min_gap == interval_nanos(min_interval_ms),
    ensures
        lp.emit_times(events).len() > 0 ==> lp.emit_times(events)[0] - lp.last_emit
            >= interval_nanos(min_interval_ms),
        forall|i: int|
            0 <= i && i + 1 < lp.emit_times(events).len() ==> #[trigger] lp.emit_times(events)[i
                + 1] - lp.emit_times(events)[i] >= interval_nanos(min_interval_ms),
    decreases events.len(),
{
    if events.len() > 0 {
        let rest = events.drop_first();
        let after = lp.next(events[0]);
        assert(events[0] matches LoopEvent::Drained { min_interval_ms: seen, .. } ==> seen
            == min_interval_ms);
        lemma_frames_keep_interval(after, rest, min_interval_ms);
        let tail_times = after.emit_times(rest);
        let times = lp.emit_times(events);
        if lp.action(events[0]) == LoopAction::Emit {
            lemma_emit_keeps_interval(lp, events[0]);
            assert forall|i: int| 0 <= i && i + 1 < times.len() implies #[trigger] times[i + 1]
                - times[i] >= interval_nanos(min_interval_ms) by {
                if i > 0 {
                    assert(times[i + 1] == tail_times[i - 1 + 1]);
                }
            }
        }
    }
}

} // verus!
