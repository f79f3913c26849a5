use ac_dimmer::config::DimmerConfig;
use ac_dimmer::dimmer::{DimmerCore, DimmerState};
use ac_dimmer::edge::EdgeMonitor;
use ac_dimmer::scheduler::DelayScheduler;
use ac_dimmer::sim::Sim;

fn mains_60hz() -> DimmerConfig {
    DimmerConfig::new(8333, 100, 50).expect("valid configuration")
}

/// Advance the run in poll-interval steps, polling once per step, until
/// the virtual clock passes `until_us`.
fn run_polling(sim: &mut Sim, poll_interval_us: u64, until_us: u64) {
    while sim.now_us < until_us {
        sim.advance(poll_interval_us);
        sim.poll();
    }
}

#[test]
fn edge_monitor_rearms_after_every_notification() {
    let mut monitor = EdgeMonitor::new();
    for _ in 0..1000 {
        monitor.on_edge();
        assert!(monitor.irq_enabled, "interrupt left disabled after an edge");
        assert!(monitor.pending);
        monitor.consume();
        assert!(monitor.irq_enabled, "consuming the indication must not disarm");
    }
}

#[test]
fn edge_monitor_rearms_on_immediately_following_edge() {
    // Two edges back to back, with no consumption in between: the second
    // notification must still find the interrupt enabled, and re-enable it.
    let mut monitor = EdgeMonitor::new();
    monitor.on_edge();
    assert!(monitor.irq_enabled);
    monitor.on_edge();
    assert!(monitor.irq_enabled);
    assert!(monitor.pending);
}

#[test]
fn scheduler_arm_resets_and_starts_the_countdown() {
    let mut sched = DelayScheduler::new();
    sched.arm(4216);
    assert_eq!(sched.counter_us, 0);
    assert_eq!(sched.target_us, 4216);
    assert!(sched.running && sched.alarm_enabled && sched.irq_enabled);
    assert!(!sched.alarm_pending);
}

#[test]
fn scheduler_alarm_fires_once_at_the_target() {
    let mut sched = DelayScheduler::new();
    sched.arm(4216);
    sched.tick(4215);
    assert!(!sched.alarm_pending, "alarm before the target");
    sched.tick(1);
    assert!(sched.alarm_pending, "no alarm at the target");
    assert!(!sched.running, "one-shot countdown kept running");
    let first = sched.consume_alarm();
    let second = sched.consume_alarm();
    assert!(first && !second, "one countdown must deliver exactly one alarm");
}

#[test]
fn scheduler_disarm_aborts_the_cycle() {
    let mut sched = DelayScheduler::new();
    sched.arm(4216);
    sched.disarm();
    sched.tick(10000);
    assert!(!sched.alarm_pending, "a disarmed countdown must never alarm");
}

#[test]
fn one_arm_per_zero_cross_and_one_pulse_per_alarm() {
    // Three well-separated cycles: a 1:1:1 chain of zero-cross, arm, pulse.
    let mut sim = Sim::new(DimmerCore::new(mains_60hz(), 50));
    for cycle in 0..3u64 {
        let start = cycle * 8333;
        run_polling(&mut sim, 1000, start);
        sim.inject_edge();
        let out = sim.poll();
        assert!(out.armed_delay.is_some(), "zero-cross did not arm");
    }
    run_polling(&mut sim, 1000, 3 * 8333);
    assert_eq!(sim.arms.len(), 3);
    assert_eq!(sim.pulses.len(), 3);
}

#[test]
fn duty_50_fires_near_the_half_cycle_midpoint() {
    // A zero-cross at t=0 with duty 50 must fire at 4216 us, within one
    // poll interval, and the output must return low pulse-width later.
    let poll_interval = 1000;
    let mut sim = Sim::new(DimmerCore::new(mains_60hz(), 50));
    sim.inject_edge();
    let out = sim.poll();
    assert_eq!(out.armed_delay, Some(4216));
    run_polling(&mut sim, poll_interval, 8000);
    assert_eq!(sim.pulses.len(), 1);
    let pulse = sim.pulses[0];
    assert!(4216 <= pulse.raised_at_us && pulse.raised_at_us <= 4216 + poll_interval);
    assert_eq!(pulse.lowered_at_us, pulse.raised_at_us + 50);
    // With this deterministic cadence the firing poll is the one at 5000.
    assert_eq!(pulse.raised_at_us, 5000);
}

#[test]
fn duty_zero_produces_no_pulse_before_the_next_zero_cross() {
    // duty 0 -> delay = full half cycle: each new zero-cross supersedes
    // the previous cycle before its alarm is ever consumed, so the lamp
    // never conducts.
    let mut sim = Sim::new(DimmerCore::new(mains_60hz(), 0));
    for cycle in 0..4u64 {
        sim.inject_edge();
        let out = sim.poll();
        assert_eq!(out.armed_delay, Some(8333));
        // Poll right up to, but not past, the next zero-cross.
        while sim.now_us < (cycle + 1) * 8333 {
            sim.advance(1000);
            if sim.now_us < (cycle + 1) * 8333 {
                let out = sim.poll();
                assert!(!out.fired, "pulse before the next zero-cross");
            }
        }
    }
    assert_eq!(sim.pulses.len(), 0, "duty 0 must never conduct");
}

#[test]
fn second_zero_cross_before_the_alarm_rearms_deterministically() {
    // A second zero-cross 2 ms after the first, before the 4216 us alarm:
    // the disarm-and-rearm policy abandons the first cycle, and the one
    // pulse fires 4216 us (plus polling latency) after the second edge.
    let mut sim = Sim::new(DimmerCore::new(mains_60hz(), 50));
    sim.inject_edge();
    let out = sim.poll();
    assert_eq!(out.armed_delay, Some(4216));
    run_polling(&mut sim, 1000, 2000);
    sim.inject_edge();
    let out = sim.poll();
    assert_eq!(out.armed_delay, Some(4216), "re-arm must be unconditional and exact");
    run_polling(&mut sim, 1000, 12000);
    assert_eq!(sim.arms.len(), 2, "each zero-cross must arm exactly once");
    assert_eq!(sim.pulses.len(), 1, "the superseded cycle must not pulse");
    // 2000 + 4216 = 6216; the first poll at or after that instant is 7000.
    assert_eq!(sim.pulses[0].raised_at_us, 7000);
}

#[test]
fn one_full_cycle_through_the_bare_core() {
    // The same chain without the virtual-clock harness: zero-cross,
    // arm, countdown, alarm, fire, pulse done.
    let mut core = DimmerCore::new(mains_60hz(), 50);
    core.zero_crossing_interrupt_handler();
    let out = core.poll();
    assert_eq!(out.armed_delay, Some(4216));
    assert_eq!(core.state, DimmerState::Armed);
    core.tick(4216);
    let out = core.poll();
    assert!(out.fired);
    assert_eq!(core.state, DimmerState::Firing);
    core.pulse_complete();
    assert_eq!(core.state, DimmerState::Idle);
    // The consumed alarm is gone: a further poll must not fire again.
    let out = core.poll();
    assert!(!out.fired);
}

#[test]
fn spurious_alarm_is_a_no_op() {
    let mut core = DimmerCore::new(mains_60hz(), 50);
    core.alarm_interrupt_handler();
    let out = core.poll();
    assert!(!out.fired, "a stale alarm with no armed cycle must not pulse");
    assert_eq!(core.state, DimmerState::Idle);
}

#[test]
fn set_duty_takes_effect_on_the_following_cycle() {
    let mut sim = Sim::new(DimmerCore::new(mains_60hz(), 50));
    sim.inject_edge();
    sim.poll();
    // Mid-cycle duty change: the running countdown keeps its old target.
    sim.core.set_duty(100);
    assert_eq!(sim.core.sched.target_us, 4216);
    run_polling(&mut sim, 1000, 8333);
    sim.inject_edge();
    let out = sim.poll();
    assert_eq!(out.armed_delay, Some(100), "new duty must apply on the next zero-cross");
}

#[test]
fn pulse_width_is_exactly_the_configured_duration() {
    let mut sim = Sim::new(DimmerCore::new(mains_60hz(), 80));
    sim.inject_edge();
    sim.poll();
    run_polling(&mut sim, 500, 8000);
    assert_eq!(sim.pulses.len(), 1);
    for pulse in &sim.pulses {
        assert_eq!(pulse.lowered_at_us - pulse.raised_at_us, 50);
    }
    // No arm call falls inside the high interval of any pulse.
    for arm in &sim.arms {
        for pulse in &sim.pulses {
            assert!(arm.at_us <= pulse.raised_at_us || arm.at_us >= pulse.lowered_at_us);
        }
    }
}

#[test]
fn alarm_callback_raises_only_the_indication() {
    let mut sched = DelayScheduler::new();
    sched.arm(1000);
    sched.alarm_callback();
    assert!(sched.alarm_pending);
    assert_eq!(sched.counter_us, 0);
    assert_eq!(sched.target_us, 1000);
    assert!(sched.running, "the handler must not stop the counter itself");
}

#[test]
fn zero_cross_handler_only_signals_and_rearms() {
    let mut core = DimmerCore::new(mains_60hz(), 50);
    core.zero_crossing_interrupt_handler();
    assert!(core.edge.pending);
    assert!(core.edge.irq_enabled);
    assert_eq!(core.state, DimmerState::Idle, "no state work in interrupt context");
    assert!(!core.sched.running, "no timer work in interrupt context");
}
