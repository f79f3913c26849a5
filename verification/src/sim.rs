//! A virtual-clock run of the control loop, for driving the core with
//! synthetic interrupt events and inspecting the resulting pulse train.

use vstd::prelude::*;

use crate::dimmer::{DimmerCore, DimmerState, PollOutcome};
use crate::edge::notified;
use crate::phase::phase_delay_spec;
use crate::scheduler::{ticked, DelayScheduler};
use crate::pulse::{fire, Pulse};

verus! {

/// One arming of the delay scheduler: when it happened on the virtual
/// clock and which delay was set.
#[derive(Clone, Copy, Debug, PartialEq, Eq, Structural)]
pub struct ArmRecord {
    pub at_us: u64,
    pub delay_us: u64,
}

/// A dimmer core driven on a virtual clock.  The caller injects edge
/// notifications and advances time; the run records every arming and
/// every completed gate pulse, so a whole scenario can be replayed and
/// examined deterministically, with no hardware and no race.
pub struct Sim {
    pub core: DimmerCore,
    pub now_us: u64,
    pub arms: Vec<ArmRecord>,
    pub pulses: Vec<Pulse>,
}

impl Sim {
    /// Well-formedness of a run.  Besides a well-formed core that is
    /// never left mid-pulse, it carries the pulse-shape guarantees:
    /// every recorded pulse was held high for exactly the configured
    /// width and lies in the past of the virtual clock, every recorded
    /// arming lies in the past, and no arming falls strictly inside the
    /// high interval of any pulse — the firing pulse never overlaps an
    /// arm call.
    pub open spec fn wf(self) -> bool {
        &&& self.core.wf()
        &&& self.core.state != DimmerState::Firing
        &&& forall|i: int|
            0 <= i < self.pulses@.len() ==> (#[trigger] self.pulses@[i]).lowered_at_us
                == self.pulses@[i].raised_at_us + self.core.cfg.pulse_width_us
        &&& forall|i: int|
            0 <= i < self.pulses@.len() ==> (#[trigger] self.pulses@[i]).lowered_at_us
                <= self.now_us
        &&& forall|j: int|
            0 <= j < self.arms@.len() ==> (#[trigger] self.arms@[j]).at_us <= self.now_us
        &&& forall|i: int, j: int|
            0 <= i < self.pulses@.len() && 0 <= j < self.arms@.len() ==> (
            #[trigger] self.arms@[j]).at_us <= (#[trigger] self.pulses@[i]).raised_at_us
                || self.arms@[j].at_us >= self.pulses@[i].lowered_at_us
    }

    /// Start a run at virtual time zero with a freshly initialized core.
    pub fn new(core: DimmerCore) -> (r: Sim)
        requires
            core.wf(),
            core.state != DimmerState::Firing,
        ensures
            r.wf(),
            r.core == core,
            r.now_us == 0,
            r.arms@.len() == 0,
            r.pulses@.len() == 0,
    {
        Sim { core, now_us: 0, arms: Vec::new(), pulses: Vec::new() }
    }

    /// Deliver one zero-cross edge at the current instant, exactly as the
    /// hardware would: the notification reaches the handler only while
    /// the edge interrupt request is enabled.
    pub fn inject_edge(&mut self)
        requires
            old(self).wf(),
        ensures
            final(self).wf(),
            final(self).now_us == old(self).now_us,
            final(self).arms == old(self).arms,
            final(self).pulses == old(self).pulses,
            old(self).core.edge.irq_enabled ==> final(self).core == (DimmerCore {
                edge: notified(old(self).core.edge),
                ..old(self).core
            }),
            !old(self).core.edge.irq_enabled ==> final(self).core == old(self).core,
    {
        if self.core.edge.irq_enabled {
            self.core.zero_crossing_interrupt_handler();
        }
    }

    /// Let `dt_us` of virtual wall time pass: the hardware countdown
    /// advances and, on elapsing, raises its alarm indication.
    pub fn advance(&mut self, dt_us: u64)
        requires
            old(self).wf(),
            old(self).now_us + dt_us <= u64::MAX,
        ensures
            final(self).wf(),
            final(self).now_us == old(self).now_us + dt_us,
            final(self).arms == old(self).arms,
            final(self).pulses == old(self).pulses,
            final(self).core == (DimmerCore {
                sched: ticked(old(self).core.sched, dt_us),
                ..old(self).core
            }),
    {
        self.now_us = self.now_us + dt_us;
        self.core.tick(dt_us);
    }

    /// Run one pass of the control loop at the current instant.  An
    /// arming is recorded at the instant of the poll; a firing drives
    /// the firing pulse as a blocking busy-wait, so the virtual clock
    /// moves to the end of the pulse before the loop resumes.  The
    /// countdown does not advance during the pulse: the one-shot alarm
    /// that caused the firing has already stopped it.
    pub fn poll(&mut self) -> (out: PollOutcome)
        requires
            old(self).wf(),
            old(self).now_us + old(self).core.cfg.pulse_width_us <= u64::MAX,
        ensures
            final(self).wf(),
            out.armed_delay.is_some() == old(self).core.edge.pending,
            old(self).core.edge.pending ==> out.armed_delay.unwrap()
                == phase_delay_spec(old(self).core.cfg, old(self).core.duty),
            out.armed_delay.is_some() ==> final(self).arms@ == old(self).arms@.push(
                ArmRecord { at_us: old(self).now_us, delay_us: out.armed_delay.unwrap() },
            ) && final(self).pulses == old(self).pulses && final(self).now_us == old(
                self,
            ).now_us,
            out.fired ==> final(self).pulses@ == old(self).pulses@.push(
                Pulse {
                    raised_at_us: old(self).now_us,
                    lowered_at_us: (old(self).now_us + old(self).core.cfg.pulse_width_us) as u64,
                },
            ) && final(self).arms == old(self).arms && final(self).now_us == old(self).now_us
                + old(self).core.cfg.pulse_width_us,
            !out.armed_delay.is_some() && !out.fired ==> final(self).arms == old(self).arms
                && final(self).pulses == old(self).pulses && final(self).now_us == old(
                self,
            ).now_us,
            out.fired == (!old(self).core.edge.pending && old(self).core.sched.alarm_pending
                && old(self).core.state == DimmerState::Armed),
            final(self).core.cfg == old(self).core.cfg,
            final(self).core.duty == old(self).core.duty,
            !final(self).core.edge.pending,
            final(self).core.edge.irq_enabled == old(self).core.edge.irq_enabled,
            old(self).core.edge.pending ==> final(self).core.sched
                == (DelayScheduler {
                counter_us: 0,
                target_us: out.armed_delay.unwrap(),
                running: true,
                alarm_enabled: true,
                irq_enabled: true,
                alarm_pending: false,
            }),
            !old(self).core.edge.pending ==> final(self).core.sched
                == (DelayScheduler {
                alarm_pending: false,
                ..old(self).core.sched
            }),
            final(self).core.state == (if old(self).core.edge.pending {
                DimmerState::Armed
            } else if out.fired {
                DimmerState::Idle
            } else {
                old(self).core.state
            }),
            final(self).core.fires@ == old(self).core.fires@ + (if out.fired {
                1nat
            } else {
                0nat
            }),
    {
        let out = self.core.poll();
        if let Option::Some(d) = out.armed_delay {
            self.arms.push(ArmRecord { at_us: self.now_us, delay_us: d });
        }
        if out.fired {
            let p = fire(&self.core.cfg, self.now_us);
            self.now_us = self.now_us + self.core.cfg.pulse_width_us;
            self.core.pulse_complete();
            self.pulses.push(p);
        }
        out
    }
}

/// Law: in every well-formed run, every recorded gate pulse was held
/// high for exactly the configured pulse width, and no arming of the
/// delay scheduler falls inside the high interval of any pulse — the
/// pulse never overlaps the next zero-cross's arm call.
pub proof fn lemma_pulse_bounded(s: Sim, i: int, j: int)
    requires
        s.wf(),
        0 <= i < s.pulses@.len(),
        0 <= j < s.arms@.len(),
    ensures
        s.pulses@[i].lowered_at_us == s.pulses@[i].raised_at_us + s.core.cfg.pulse_width_us,
        s.pulses@[i].width() == s.core.cfg.pulse_width_us,
        s.arms@[j].at_us <= s.pulses@[i].raised_at_us || s.arms@[j].at_us
            >= s.pulses@[i].lowered_at_us,
{
}

} // verus!
