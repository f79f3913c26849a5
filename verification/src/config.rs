//! Static timing parameters of one dimming channel.

use vstd::prelude::*;

verus! {

/// Timing parameters of the channel, all in microseconds.
///
/// `half_cycle_us` is half the AC mains period (8333 at 60 Hz, 10000 at
/// 50 Hz) and is the largest useful phase delay.  `min_delay_us` is the
/// shortest firing delay the hardware supports; the duty range is mapped
/// onto `[min_delay_us, half_cycle_us]`.  `pulse_width_us` is how long the
/// gate output is held high to latch the triac.
#[derive(Clone, Copy, Debug, PartialEq, Eq, Structural)]
pub struct DimmerConfig {
    pub half_cycle_us: u64,
    pub min_delay_us: u64,
    pub pulse_width_us: u64,
}

impl DimmerConfig {
    /// Well-formedness of a configuration.
    ///
    /// The minimum firing delay must be positive and leave at least its own
    /// length of slack below the half cycle, so the zero-duty delay exceeds
    /// the full-duty delay by at least one minimum firing delay.  The half
    /// cycle is capped at one second, which keeps every microsecond product
    /// in this library far from overflow.  The firing pulse must be positive
    /// and no longer than the minimum firing delay: it is meant to latch
    /// the triac, not to conduct on its own.
    pub open spec fn wf(self) -> bool {
        &&& 0 < self.min_delay_us
        &&& self.min_delay_us + self.min_delay_us <= self.half_cycle_us
        &&& self.half_cycle_us <= 1_000_000
        &&& 0 < self.pulse_width_us
        &&& self.pulse_width_us <= self.min_delay_us
    }

    /// Checked constructor: returns a configuration exactly when the three
    /// durations satisfy `wf`, and `None` otherwise (peripheral parameters
    /// that cannot support phase control are an initialization error).
    pub fn new(half_cycle_us: u64, min_delay_us: u64, pulse_width_us: u64) -> (r: Option<
        DimmerConfig,
    >)
        ensures
            r.is_some() <==> (DimmerConfig {
                half_cycle_us,
                min_delay_us,
                pulse_width_us,
            }).wf(),
            r.is_some() ==> r.unwrap() == (DimmerConfig { half_cycle_us, min_delay_us, pulse_width_us }),
    {
        if 0 < min_delay_us && min_delay_us <= half_cycle_us && min_delay_us <= half_cycle_us
            - min_delay_us && half_cycle_us
            <= 1_000_000 && 0 < pulse_width_us && pulse_width_us <= min_delay_us {
            Some(DimmerConfig { half_cycle_us, min_delay_us, pulse_width_us })
        } else {
            None
        }
    }
}

} // verus!
