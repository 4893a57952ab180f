use noirtty::emitter::{EmulatorLoop, LoopAction, LoopEvent, LoopPhase};
use noirtty::throttle::{min_gap_nanos, start_reading, throttle_delay};

const MS: u64 = 1_000_000;

fn drained(now: u64, min_interval_ms: u32) -> LoopEvent {
    LoopEvent::Drained { now, min_interval_ms }
}

#[test]
fn throttle_arithmetic() {
    assert_eq!(min_gap_nanos(0), 0);
    assert_eq!(min_gap_nanos(100), 100_000_000);
    assert_eq!(min_gap_nanos(u32::MAX), 4_294_967_295_000_000);
    assert_eq!(throttle_delay(100, 0, 30 * MS), 70 * MS);
    assert_eq!(throttle_delay(100, 0, 100 * MS), 0);
    assert_eq!(throttle_delay(100, 0, 100 * MS - 1), 1);
    assert_eq!(throttle_delay(100, 50 * MS, 250 * MS), 0);
    assert_eq!(throttle_delay(0, 5, 5), 0);
    // A clock that reads earlier than the last emission counts as no time.
    assert_eq!(throttle_delay(10, 50 * MS, 20 * MS), 10 * MS);
    assert_eq!(start_reading(5_000_000_000), 4_000_000_000);
    assert_eq!(start_reading(1_000_000_000), 0);
    assert_eq!(start_reading(999_999_999), 999_999_999);
    assert_eq!(start_reading(0), 0);
}

#[test]
fn new_loop_is_idle() {
    let lp = EmulatorLoop::new(3_000 * MS);
    assert_eq!(
        lp,
        EmulatorLoop { phase: LoopPhase::Running, pending: false, last_emit: 2_000 * MS, min_gap: 0 }
    );
}

#[test]
fn burst_of_commands_emits_one_frame() {
    let mut lp = EmulatorLoop::new(10_000 * MS);
    let mut emitted = 0;
    for _ in 0..1000 {
        assert_eq!(lp.step(LoopEvent::Command), LoopAction::Apply);
    }
    for event in [drained(10_001 * MS, 0), drained(10_002 * MS, 0), LoopEvent::Woke { now: 10_003 * MS }] {
        if lp.step(event) == LoopAction::Emit {
            emitted += 1;
        }
    }
    assert_eq!(emitted, 1);
    assert_eq!(lp.last_emit, 10_001 * MS);
    assert!(!lp.pending);
}

#[test]
fn each_burst_gets_its_frame_without_throttle() {
    let mut lp = EmulatorLoop::new(0);
    let mut times = Vec::new();
    for burst in 0..5u64 {
        assert_eq!(lp.step(LoopEvent::Command), LoopAction::Apply);
        assert_eq!(lp.step(LoopEvent::Command), LoopAction::Apply);
        let now = burst * 3;
        assert_eq!(lp.step(drained(now, 0)), LoopAction::Emit);
        times.push(lp.last_emit);
    }
    assert_eq!(times, vec![0, 3, 6, 9, 12]);
}

#[test]
fn nothing_pending_nothing_emitted() {
    let mut lp = EmulatorLoop::new(0);
    assert_eq!(lp.step(drained(50, 0)), LoopAction::Wait);
    assert_eq!(lp.step(LoopEvent::Woke { now: 60 }), LoopAction::Wait);
    assert_eq!(lp.step(LoopEvent::Closed), LoopAction::Stop);
    assert_eq!(lp, EmulatorLoop::new(0));
}

#[test]
fn throttled_frame_waits_out_the_interval() {
    let start = 5_000 * MS;
    let mut lp = EmulatorLoop::new(start);
    // The first frame is not held back: the loop starts with a second of credit.
    lp.step(LoopEvent::Command);
    assert_eq!(lp.step(drained(start, 100)), LoopAction::Emit);
    // 30 ms later the next one has to wait 70 ms.
    lp.step(LoopEvent::Command);
    assert_eq!(lp.step(drained(start + 30 * MS, 100)), LoopAction::Sleep(70 * MS));
    assert_eq!(lp.phase, LoopPhase::Throttling);
    // Woken too early, it sleeps the rest.
    assert_eq!(lp.step(LoopEvent::Woke { now: start + 60 * MS }), LoopAction::Sleep(40 * MS));
    assert_eq!(lp.step(LoopEvent::Woke { now: start + 100 * MS }), LoopAction::Emit);
    assert_eq!(lp.last_emit, start + 100 * MS);
    assert_eq!(lp.phase, LoopPhase::Running);
    // After the interval nothing is held back.
    lp.step(LoopEvent::Command);
    assert_eq!(lp.step(drained(start + 200 * MS, 100)), LoopAction::Emit);
}

#[test]
fn long_interval_holds_back_the_first_frame_too() {
    let start = 5_000 * MS;
    let mut lp = EmulatorLoop::new(start);
    lp.step(LoopEvent::Command);
    assert_eq!(lp.step(drained(start + 200 * MS, 1500)), LoopAction::Sleep(300 * MS));
}

#[test]
fn quality_change_takes_effect_at_the_next_check() {
    let start = 5_000 * MS;
    let mut lp = EmulatorLoop::new(start);
    lp.step(LoopEvent::Command);
    lp.step(drained(start, 0));
    lp.step(LoopEvent::Command);
    assert_eq!(lp.step(drained(start + 10 * MS, 100)), LoopAction::Sleep(90 * MS));
    // The interval is lifted while the loop sleeps: the sleep is not cut short.
    assert_eq!(lp.step(LoopEvent::Woke { now: start + 50 * MS }), LoopAction::Sleep(50 * MS));
    assert_eq!(lp.step(LoopEvent::Woke { now: start + 100 * MS }), LoopAction::Emit);
    lp.step(LoopEvent::Command);
    assert_eq!(lp.step(drained(start + 101 * MS, 0)), LoopAction::Emit);
}

/// Runs the loop as the session does: each write is a command that finds
/// the queue empty behind it; a sleep lasts as long as asked unless the
/// next write comes first, which is then applied after the sleep.
fn frames_for_writes(min_interval_ms: u32, start: u64, writes: &[u64]) -> Vec<u64> {
    let mut lp = EmulatorLoop::new(start);
    let mut frames = Vec::new();
    let mut clock = start;
    let mut next = 0;
    while next < writes.len() {
        clock = clock.max(writes[next]);
        assert_eq!(lp.step(LoopEvent::Command), LoopAction::Apply);
        next += 1;
        // Everything that has arrived by now is drained in the same burst.
        while next < writes.len() && writes[next] <= clock {
            assert_eq!(lp.step(LoopEvent::Command), LoopAction::Apply);
            next += 1;
        }
        let mut action = lp.step(LoopEvent::Drained { now: clock, min_interval_ms });
        while let LoopAction::Sleep(nanos) = action {
            clock += nanos;
            action = lp.step(LoopEvent::Woke { now: clock });
        }
        assert_eq!(action, LoopAction::Emit);
        frames.push(clock);
    }
    frames
}

#[test]
fn quality_throttle() {
    let start = 60_000 * MS;
    let writes: Vec<u64> = (0..10).map(|i| start + i * 10 * MS).collect();
    let frames = frames_for_writes(100, start, &writes);
    let in_window = frames.iter().filter(|&&t| t < start + 100 * MS).count();
    assert!(in_window <= 2, "{:?}", frames);
    // The first write is shown at once, the second after the interval, and
    // the eight that came in during that sleep share one more frame.
    assert_eq!(frames, vec![start, start + 100 * MS, start + 200 * MS]);
    assert!(frames.iter().filter(|&&t| t <= start + 100 * MS).count() <= 2);
    for pair in frames.windows(2) {
        assert!(pair[1] - pair[0] >= 100 * MS);
    }
    // Without a throttle every write gets its frame.
    assert_eq!(frames_for_writes(0, start, &writes).len(), 10);
}

#[test]
fn frames_keep_their_distance() {
    let start = 1_000 * MS;
    let writes: Vec<u64> = (0..200).map(|i| start + i * 7 * MS + (i % 3) * MS).collect();
    for k in [1u32, 5, 16, 33, 250] {
        let frames = frames_for_writes(k, start, &writes);
        assert!(!frames.is_empty());
        for pair in frames.windows(2) {
            assert!(pair[1] - pair[0] >= k as u64 * MS, "{} {:?}", k, pair);
        }
    }
}

#[test]
fn event_out_of_turn_never_emits_early() {
    let start = 5_000 * MS;
    let mut lp = EmulatorLoop::new(start);
    lp.step(LoopEvent::Command);
    assert_eq!(lp.step(drained(start, 100)), LoopAction::Emit);
    lp.step(LoopEvent::Command);
    // A wake-up without a sleep: the loop asks for a poll, it does not emit.
    assert_eq!(lp.step(LoopEvent::Woke { now: start + MS }), LoopAction::Poll);
    assert_eq!(lp.step(drained(start + 2 * MS, 100)), LoopAction::Sleep(98 * MS));
    // A command during the sleep is applied; the throttle is checked again.
    assert_eq!(lp.step(LoopEvent::Command), LoopAction::Apply);
    assert_eq!(lp.step(drained(start + 3 * MS, 100)), LoopAction::Sleep(97 * MS));
    assert_eq!(lp.step(LoopEvent::Closed), LoopAction::Stop);
}
