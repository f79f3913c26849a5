//! The delay scheduler: a one-shot countdown from zero-cross to firing.

use vstd::prelude::*;

verus! {

/// State of the one-shot countdown timer that spans the phase delay.
///
/// `counter_us` is the current count and `target_us` the alarm target,
/// both in the timer's microsecond tick domain.  `running` says whether
/// the counter is advancing; `alarm_enabled` and `irq_enabled` model the
/// timer's alarm-generation and interrupt-delivery switches.
/// `alarm_pending` is the transient "the countdown elapsed" indication,
/// set in timer-interrupt context and cleared by the control loop.
#[derive(Clone, Copy, Debug, PartialEq, Eq, Structural)]
pub struct DelayScheduler {
    pub counter_us: u64,
    pub target_us: u64,
    pub running: bool,
    pub alarm_enabled: bool,
    pub irq_enabled: bool,
    pub alarm_pending: bool,
}

/// Whether advancing a running scheduler by `dt_us` reaches the target.
pub open spec fn elapses(s: DelayScheduler, dt_us: u64) -> bool {
    s.running && s.alarm_enabled && dt_us >= s.target_us - s.counter_us
}

/// The scheduler after the hardware counter has advanced by `dt_us`.
/// A stopped counter does not move.  A running counter that reaches its
/// target raises the alarm indication and stops: the timer is strictly
/// one-shot, freshly re-armed every zero-cross, so that no drift against
/// the AC line can accumulate.
pub open spec fn ticked(s: DelayScheduler, dt_us: u64) -> DelayScheduler {
    if !s.running {
        s
    } else if elapses(s, dt_us) {
        DelayScheduler { counter_us: s.target_us, running: false, alarm_pending: true, ..s }
    } else {
        DelayScheduler { counter_us: (s.counter_us + dt_us) as u64, ..s }
    }
}

impl DelayScheduler {
    /// Well-formedness: while the countdown runs, the counter has not
    /// passed its target (arming always restarts the count from zero),
    /// and alarm generation is enabled (a running count always has a
    /// deadline to deliver).
    pub open spec fn wf(self) -> bool {
        self.running ==> self.counter_us <= self.target_us && self.alarm_enabled
    }

    /// A freshly acquired timer: stopped, nothing armed, no indication.
    pub fn new() -> (r: DelayScheduler)
        ensures
            r == (DelayScheduler {
                counter_us: 0,
                target_us: 0,
                running: false,
                alarm_enabled: false,
                irq_enabled: false,
                alarm_pending: false,
            }),
            r.wf(),
    {
        DelayScheduler {
            counter_us: 0,
            target_us: 0,
            running: false,
            alarm_enabled: false,
            irq_enabled: false,
            alarm_pending: false,
        }
    }

    /// Arm the countdown: reset the counter to zero, set the target to
    /// `delay_us`, enable single-shot alarm generation and its interrupt,
    /// and start counting.  An already-running countdown must never be
    /// armed again — which deadline would fire is undefined — so arming
    /// requires a stopped timer; abort a cycle with [`Self::disarm`]
    /// first.  A pending indication from an earlier cycle is left in
    /// place: discarding it is an explicit decision of the control loop.
    pub fn arm(&mut self, delay_us: u64)
        requires
            !old(self).running,
        ensures
            *final(self) == (DelayScheduler {
                counter_us: 0,
                target_us: delay_us,
                running: true,
                alarm_enabled: true,
                irq_enabled: true,
                alarm_pending: old(self).alarm_pending,
            }),
            final(self).wf(),
    {
        self.counter_us = 0;
        self.target_us = delay_us;
        self.alarm_enabled = true;
        self.irq_enabled = true;
        self.running = true;
    }

    /// Abort the current cycle: stop the counter and disable alarm
    /// generation.  The counter, target and any pending indication are
    /// left as they are.
    pub fn disarm(&mut self)
        ensures
            *final(self) == (DelayScheduler {
                running: false,
                alarm_enabled: false,
                ..*old(self)
            }),
            final(self).wf(),
    {
        self.running = false;
        self.alarm_enabled = false;
    }

    /// The timer-interrupt handler: raise the alarm indication, and do
    /// nothing else — no computation, no blocking, no pin work in
    /// interrupt context.
    pub fn alarm_callback(&mut self)
        ensures
            *final(self) == (DelayScheduler { alarm_pending: true, ..*old(self) }),
    {
        self.alarm_pending = true;
    }

    /// Consume the alarm indication: report whether the countdown had
    /// elapsed since the last poll, and clear the indication.
    pub fn consume_alarm(&mut self) -> (was: bool)
        ensures
            was == old(self).alarm_pending,
            *final(self) == (DelayScheduler { alarm_pending: false, ..*old(self) }),
    {
        let was = self.alarm_pending;
        self.alarm_pending = false;
        was
    }

    /// Advance the hardware counter by `dt_us` of wall time, exactly as
    /// [`ticked`] describes; on reaching the target the alarm indication
    /// is raised through [`Self::alarm_callback`] and the one-shot
    /// countdown stops itself.
    pub fn tick(&mut self, dt_us: u64)
        requires
            old(self).wf(),
        ensures
            *final(self) == ticked(*old(self), dt_us),
            final(self).wf(),
    {
        if self.running {
            let remaining: u64 = self.target_us - self.counter_us;
            if dt_us >= remaining {
                self.counter_us = self.target_us;
                self.running = false;
                self.alarm_callback();
            } else {
                self.counter_us = self.counter_us + dt_us;
            }
        }
    }
}

} // verus!
