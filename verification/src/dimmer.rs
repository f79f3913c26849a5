//! The dimmer core: the explicit state machine behind the control loop.

use vstd::prelude::*;

use crate::config::DimmerConfig;
use crate::edge::{notified, EdgeMonitor};
use crate::phase::{phase_delay, phase_delay_spec};
use crate::scheduler::{ticked, DelayScheduler};

verus! {

/// Where the channel stands in its dimming cycle.
///
/// `Idle`: no zero-cross consumed yet, no countdown outstanding.
/// `Armed`: a countdown is outstanding, waiting for its alarm.
/// `Firing`: the alarm was consumed and the firing pulse is in progress.
/// The state is explicit, rather than implicit in the two indication
/// flags, so that double-arming is excluded by construction.
#[derive(Clone, Copy, Debug, PartialEq, Eq, Structural)]
pub enum DimmerState {
    Idle,
    Armed,
    Firing,
}

/// What one poll of the control loop decided: the delay that was armed,
/// if a zero-cross was consumed, and whether the firing pulse must fire.
#[derive(Clone, Copy, Debug)]
pub struct PollOutcome {
    pub armed_delay: Option<u64>,
    pub fired: bool,
}

/// The control core of one dimming channel: configuration, duty setting,
/// cycle state, and the two event sources.  The ghost counters record the
/// causal chain — how many zero-crossings and alarms were consumed and
/// what each consumption led to — so the one-arm-per-zero-cross and
/// one-pulse-per-alarm bookkeeping is part of the state's invariant.
pub struct DimmerCore {
    pub cfg: DimmerConfig,
    pub duty: u8,
    pub state: DimmerState,
    pub edge: EdgeMonitor,
    pub sched: DelayScheduler,
    pub zc_consumed: Ghost<nat>,
    pub arms_made: Ghost<nat>,
    pub alarms_consumed: Ghost<nat>,
    pub fires: Ghost<nat>,
    pub stale_alarms: Ghost<nat>,
    pub superseded_alarms: Ghost<nat>,
}

impl DimmerCore {
    /// Well-formedness: a valid configuration, a duty inside `[0, 100]`,
    /// a well-formed scheduler, and consistent causal bookkeeping — every
    /// consumed zero-cross armed exactly one countdown, and every
    /// consumed alarm either fired exactly one pulse, was dropped as
    /// stale, or was superseded by a fresh zero-cross.
    pub open spec fn wf(self) -> bool {
        &&& self.cfg.wf()
        &&& self.duty <= 100
        &&& self.sched.wf()
        &&& self.arms_made@ == self.zc_consumed@
        &&& self.alarms_consumed@ == self.fires@ + self.stale_alarms@ + self.superseded_alarms@
    }

    /// A freshly initialized channel: idle, edge monitor armed, timer
    /// stopped, nothing consumed yet.
    pub fn new(cfg: DimmerConfig, duty: u8) -> (r: DimmerCore)
        requires
            cfg.wf(),
            duty <= 100,
        ensures
            r.wf(),
            r.cfg == cfg,
            r.duty == duty,
            r.state == DimmerState::Idle,
            r.edge == (EdgeMonitor { irq_enabled: true, pending: false }),
            !r.sched.running,
            !r.sched.alarm_pending,
            r.zc_consumed@ == 0 && r.arms_made@ == 0 && r.alarms_consumed@ == 0,
            r.fires@ == 0 && r.stale_alarms@ == 0 && r.superseded_alarms@ == 0,
    {
        DimmerCore {
            cfg,
            duty,
            state: DimmerState::Idle,
            edge: EdgeMonitor::new(),
            sched: DelayScheduler::new(),
            zc_consumed: Ghost(0),
            arms_made: Ghost(0),
            alarms_consumed: Ghost(0),
            fires: Ghost(0),
            stale_alarms: Ghost(0),
            superseded_alarms: Ghost(0),
        }
    }

    /// The zero-cross interrupt handler: raise the indication and
    /// re-enable the edge interrupt, nothing more.  Timer work stays in
    /// the control loop, outside interrupt context, where the platform's
    /// real-time executor allows locking.
    pub fn zero_crossing_interrupt_handler(&mut self)
        ensures
            *final(self) == (DimmerCore { edge: notified(old(self).edge), ..*old(self) }),
    {
        self.edge.on_edge();
    }

    /// The timer-alarm interrupt handler: raise the alarm indication,
    /// nothing more.
    pub fn alarm_interrupt_handler(&mut self)
        ensures
            *final(self) == (DimmerCore {
                sched: (DelayScheduler { alarm_pending: true, ..old(self).sched }),
                ..*old(self)
            }),
    {
        self.sched.alarm_callback();
    }

    /// Advance the hardware countdown by `dt_us` of wall time; on
    /// elapsing, the one-shot alarm indication is raised and the counter
    /// stops.
    pub fn tick(&mut self, dt_us: u64)
        requires
            old(self).wf(),
        ensures
            final(self).wf(),
            *final(self) == (DimmerCore { sched: ticked(old(self).sched, dt_us), ..*old(self) }),
    {
        self.sched.tick(dt_us);
    }

    /// Update the duty setting used on the next zero-cross.  The running
    /// countdown, the cycle state and both indications are untouched: a
    /// new setting never acts retroactively on an already-armed cycle.
    pub fn set_duty(&mut self, percent: u8)
        requires
            old(self).wf(),
            percent <= 100,
        ensures
            final(self).wf(),
            *final(self) == (DimmerCore { duty: percent, ..*old(self) }),
    {
        self.duty = percent;
    }

    /// One pass of the polling control loop.
    ///
    /// If a zero-cross indication is pending, it is consumed: the phase
    /// delay for the current duty is computed and the countdown is armed
    /// from zero.  The overlap policy is disarm-and-rearm: a zero-cross
    /// that arrives while a cycle is still outstanding abandons that
    /// cycle — the countdown is stopped and an undelivered alarm
    /// indication is discarded — and the fresh countdown wins, so the
    /// outcome never depends on a hardware race.
    ///
    /// Otherwise, if an alarm indication is pending, it is consumed: with
    /// a cycle armed the core moves to `Firing` and reports that exactly
    /// one gate pulse is due; with no cycle armed the indication is
    /// spurious and is dropped as a harmless no-op.
    pub fn poll(&mut self) -> (out: PollOutcome)
        requires
            old(self).wf(),
            old(self).state != DimmerState::Firing,
        ensures
            final(self).wf(),
            final(self).cfg == old(self).cfg,
            final(self).duty == old(self).duty,
            !final(self).edge.pending,
            final(self).edge.irq_enabled == old(self).edge.irq_enabled,
            // exactly one arm per consumed zero-cross
            out.armed_delay.is_some() == old(self).edge.pending,
            old(self).edge.pending ==> out.armed_delay.unwrap() == phase_delay_spec(
                old(self).cfg,
                old(self).duty,
            ),
            old(self).edge.pending ==> !out.fired && final(self).state == DimmerState::Armed
                && final(self).sched == (DelayScheduler {
                counter_us: 0,
                target_us: out.armed_delay.unwrap(),
                running: true,
                alarm_enabled: true,
                irq_enabled: true,
                alarm_pending: false,
            }),
            // exactly one firing per consumed alarm of an armed cycle
            out.fired == (!old(self).edge.pending && old(self).sched.alarm_pending && old(
                self,
            ).state == DimmerState::Armed),
            !old(self).edge.pending ==> final(self).sched == (DelayScheduler {
                alarm_pending: false,
                ..old(self).sched
            }),
            final(self).state == (if old(self).edge.pending {
                DimmerState::Armed
            } else if out.fired {
                DimmerState::Firing
            } else {
                old(self).state
            }),
            // causal bookkeeping
            final(self).zc_consumed@ == old(self).zc_consumed@ + (if old(self).edge.pending {
                1nat
            } else {
                0nat
            }),
            final(self).arms_made@ == old(self).arms_made@ + (if old(self).edge.pending {
                1nat
            } else {
                0nat
            }),
            final(self).alarms_consumed@ == old(self).alarms_consumed@ + (if old(
                self,
            ).sched.alarm_pending {
                1nat
            } else {
                0nat
            }),
            final(self).fires@ == old(self).fires@ + (if out.fired {
                1nat
            } else {
                0nat
            }),
            final(self).stale_alarms@ == old(self).stale_alarms@ + (if !old(self).edge.pending
                && old(self).sched.alarm_pending && old(self).state == DimmerState::Idle {
                1nat
            } else {
                0nat
            }),
            final(self).superseded_alarms@ == old(self).superseded_alarms@ + (if old(
                self,
            ).edge.pending && old(self).sched.alarm_pending {
                1nat
            } else {
                0nat
            }),
    {
        let mut armed_delay: Option<u64> = None;
        let mut fired = false;
        if self.edge.consume() {
            let d = phase_delay(&self.cfg, self.duty);
            self.sched.disarm();
            let superseded = self.sched.consume_alarm();
            self.sched.arm(d);
            self.state = DimmerState::Armed;
            armed_delay = Some(d);
            self.zc_consumed = Ghost(self.zc_consumed@ + 1);
            self.arms_made = Ghost(self.arms_made@ + 1);
            if superseded {
                self.alarms_consumed = Ghost(self.alarms_consumed@ + 1);
                self.superseded_alarms = Ghost(self.superseded_alarms@ + 1);
            }
        } else if self.sched.consume_alarm() {
            self.alarms_consumed = Ghost(self.alarms_consumed@ + 1);
            if self.state == DimmerState::Armed {
                self.state = DimmerState::Firing;
                fired = true;
                self.fires = Ghost(self.fires@ + 1);
            } else {
                self.stale_alarms = Ghost(self.stale_alarms@ + 1);
            }
        }
        PollOutcome { armed_delay, fired }
    }

    /// Acknowledge that the firing pulse has been driven and completed:
    /// the cycle it belonged to is over.
    pub fn pulse_complete(&mut self)
        requires
            old(self).wf(),
            old(self).state == DimmerState::Firing,
        ensures
            final(self).wf(),
            *final(self) == (DimmerCore { state: DimmerState::Idle, ..*old(self) }),
    {
        self.state = DimmerState::Idle;
    }
}

/// Law: the causal chain is one-to-one — in every well-formed core state,
/// the number of countdowns armed equals the number of zero-crossings
/// consumed, and every consumed alarm is accounted for by exactly one of:
/// a gate pulse, a stale drop, or a supersession by a fresh zero-cross.
/// Under non-overlapping timing (no stale and no superseded alarms) the
/// pulses fired equal the alarms consumed exactly.
pub proof fn lemma_causal_chain(c: DimmerCore)
    requires
        c.wf(),
    ensures
        c.arms_made@ == c.zc_consumed@,
        c.alarms_consumed@ == c.fires@ + c.stale_alarms@ + c.superseded_alarms@,
        c.stale_alarms@ == 0 && c.superseded_alarms@ == 0 ==> c.fires@ == c.alarms_consumed@,
{
}

} // verus!
