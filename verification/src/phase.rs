//! Mapping from a duty setting to the phase delay of the firing pulse.

use vstd::arithmetic::div_mod::{
    lemma_div_is_ordered, lemma_div_multiples_vanish, lemma_div_pos_is_pos,
};
use vstd::arithmetic::mul::{lemma_mul_inequality, lemma_mul_nonnegative};
use vstd::prelude::*;

use crate::config::DimmerConfig;

verus! {

/// The delay, in microseconds, between a zero-cross and the firing pulse for
/// a duty setting in `[0, 100]`: the duty range is mapped linearly and
/// monotonically (non-increasing) onto `[min_delay_us, half_cycle_us]`.
/// Duty 100 fires as early as the hardware allows (maximum conduction);
/// duty 0 waits a full half cycle (no conduction).
pub open spec fn phase_delay_spec(cfg: DimmerConfig, duty: u8) -> int {
    cfg.min_delay_us + (100 - duty) * (cfg.half_cycle_us - cfg.min_delay_us) / 100
}

/// Executable phase-delay computation; exact with respect to
/// [`phase_delay_spec`], and always inside `[min_delay_us, half_cycle_us]`.
pub fn phase_delay(cfg: &DimmerConfig, duty: u8) -> (r: u64)
    requires
        cfg.wf(),
        duty <= 100,
    ensures
        r == phase_delay_spec(*cfg, duty),
        cfg.min_delay_us <= r <= cfg.half_cycle_us,
{
    let span: u64 = cfg.half_cycle_us - cfg.min_delay_us;
    proof {
        lemma_scaled_span_le_span(span as int, duty);
    }
    let scaled: u64 = (100 - duty as u64) * span / 100;
    cfg.min_delay_us + scaled
}

/// `(100 - duty) * span / 100` never exceeds `span`.
proof fn lemma_scaled_span_le_span(span: int, duty: u8)
    requires
        0 <= span,
        duty <= 100,
    ensures
        0 <= (100 - duty) * span / 100 <= span,
{
    lemma_mul_inequality(100 - duty, 100, span);
    lemma_div_is_ordered((100 - duty) * span, 100 * span, 100);
    lemma_div_multiples_vanish(span, 100);
    lemma_div_pos_is_pos((100 - duty) * span, 100);
    lemma_mul_nonnegative(100 - duty, span);
}

/// Law: the phase delay is monotonically non-increasing in the duty
/// setting (a higher duty fires earlier and conducts longer), and the
/// zero-duty delay exceeds the full-duty delay by at least the minimum
/// firing delay.
pub proof fn lemma_phase_delay_monotonic(cfg: DimmerConfig, d1: u8, d2: u8)
    requires
        cfg.wf(),
        d1 <= d2,
        d2 <= 100,
    ensures
        phase_delay_spec(cfg, d2) <= phase_delay_spec(cfg, d1),
        phase_delay_spec(cfg, 0) >= phase_delay_spec(cfg, 100) + cfg.min_delay_us,
{
    let span = cfg.half_cycle_us - cfg.min_delay_us;
    lemma_mul_inequality(100 - d2, 100 - d1, span);
    lemma_div_is_ordered((100 - d2) * span, (100 - d1) * span, 100);
    lemma_phase_delay_extremes(cfg);
}

/// Law: the endpoints of the duty range map exactly onto the ends of the
/// delay range: duty 0 waits a full half cycle, duty 100 waits only the
/// minimum firing delay.
pub proof fn lemma_phase_delay_extremes(cfg: DimmerConfig)
    requires
        cfg.wf(),
    ensures
        phase_delay_spec(cfg, 0) == cfg.half_cycle_us,
        phase_delay_spec(cfg, 100) == cfg.min_delay_us,
{
    let span = cfg.half_cycle_us - cfg.min_delay_us;
    lemma_div_multiples_vanish(span, 100);
    assert(100 * span == (100 - 0) * span);
    assert((100 - 100) * span == 0) by (nonlinear_arith);
}

/// Law: the phase delay always lies inside `[min_delay_us, half_cycle_us]`.
pub proof fn lemma_phase_delay_bounds(cfg: DimmerConfig, duty: u8)
    requires
        cfg.wf(),
        duty <= 100,
    ensures
        cfg.min_delay_us <= phase_delay_spec(cfg, duty) <= cfg.half_cycle_us,
{
    lemma_scaled_span_le_span(cfg.half_cycle_us - cfg.min_delay_us, duty);
}

} // verus!
