//! The edge monitor: the zero-cross input and its interrupt request.

use vstd::prelude::*;

verus! {

/// State of the zero-cross edge monitor.
///
/// `irq_enabled` models whether the edge-triggered interrupt request is
/// armed; the platform disables the request each time it triggers, so the
/// notification handler must re-enable it before returning, or detection
/// silently stops for good.  `pending` is the transient "a zero-cross has
/// occurred since last consumed" indication: it carries no count, only
/// occurrence, and is cleared by the control loop when acted on.
#[derive(Clone, Copy, Debug, PartialEq, Eq, Structural)]
pub struct EdgeMonitor {
    pub irq_enabled: bool,
    pub pending: bool,
}

/// The state after one edge notification has been handled: the indication
/// is raised and the interrupt request is re-enabled, whatever the state
/// was before.
pub open spec fn notified(m: EdgeMonitor) -> EdgeMonitor {
    EdgeMonitor { irq_enabled: true, pending: true }
}

/// The state after `n` further edge notifications.
pub open spec fn notified_n(m: EdgeMonitor, n: nat) -> EdgeMonitor
    decreases n,
{
    if n == 0 {
        m
    } else {
        notified(notified_n(m, (n - 1) as nat))
    }
}

impl EdgeMonitor {
    /// A freshly configured monitor: input pulled to its idle level,
    /// interrupt request armed for the designated edge, no indication yet.
    pub fn new() -> (r: EdgeMonitor)
        ensures
            r.irq_enabled,
            !r.pending,
    {
        EdgeMonitor { irq_enabled: true, pending: false }
    }

    /// The edge-notification handler.  It does exactly two things, and
    /// nothing else: raise the zero-cross indication and re-enable the
    /// interrupt request.  The re-enable is unconditional — it does not
    /// depend on the previous state or on whether the last indication was
    /// consumed — because forgetting it stalls all future detection.
    pub fn on_edge(&mut self)
        ensures
            *final(self) == notified(*old(self)),
            final(self).pending,
            final(self).irq_enabled,
    {
        self.pending = true;
        self.irq_enabled = true;
    }

    /// Consume the indication: report whether a zero-cross was observed
    /// and clear it.  The interrupt request is not touched — re-arming is
    /// the handler's duty alone.
    pub fn consume(&mut self) -> (was: bool)
        ensures
            was == old(self).pending,
            !final(self).pending,
            final(self).irq_enabled == old(self).irq_enabled,
    {
        let was = self.pending;
        self.pending = false;
        was
    }
}

/// Law: over any sequence of edge notifications, from any starting state,
/// the interrupt request is re-enabled after every single notification —
/// an infinite stream of edges never stops being detected, and each
/// notification leaves its indication raised.
pub proof fn lemma_edge_monitor_liveness(m: EdgeMonitor, n: nat)
    requires
        n >= 1,
    ensures
        notified_n(m, n).irq_enabled,
        notified_n(m, n).pending,
    decreases n,
{
    if n > 1 {
        lemma_edge_monitor_liveness(m, (n - 1) as nat);
    }
}

} // verus!
