//! The pulse driver: the brief gate pulse that latches the triac.

use vstd::prelude::*;

use crate::config::DimmerConfig;

verus! {

/// The high interval of one gate pulse on the wall clock: the output is
/// driven high at `raised_at_us` and back low at `lowered_at_us`.
#[derive(Clone, Copy, Debug, PartialEq, Eq, Structural)]
pub struct Pulse {
    pub raised_at_us: u64,
    pub lowered_at_us: u64,
}

impl Pulse {
    /// How long the output is held high.
    pub open spec fn width(self) -> int {
        self.lowered_at_us - self.raised_at_us
    }
}

/// Plan the firing pulse that starts now: the output goes high at `now_us`
/// and is held for exactly the configured pulse width — long enough to
/// latch the triac, short enough not to bleed into the next half cycle.
/// The platform layer executes the plan as set-high, a blocking busy-wait
/// of `pulse_width_us`, set-low: the wait is far too short to justify a
/// second timer round-trip, and it runs in the control loop, never in
/// interrupt context.
pub fn fire(cfg: &DimmerConfig, now_us: u64) -> (p: Pulse)
    requires
        cfg.wf(),
        now_us + cfg.pulse_width_us <= u64::MAX,
    ensures
        p.raised_at_us == now_us,
        p.lowered_at_us == now_us + cfg.pulse_width_us,
        p.width() == cfg.pulse_width_us,
{
    Pulse { raised_at_us: now_us, lowered_at_us: now_us + cfg.pulse_width_us }
}

} // verus!
