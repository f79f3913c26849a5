//! Phase-control dimming core for an AC mains load.
//!
//! The library models the timing heart of a triac phase dimmer: an edge
//! monitor that watches the zero-cross detector, a one-shot delay scheduler
//! that counts from the zero-cross to the firing instant, a pulse driver
//! that plans the brief gate pulse, and the polling control loop that ties
//! the three together.  All hardware access (pins, timers, interrupt
//! registration) is left to a thin platform layer; the core works on plain
//! values, so every timing decision here is verified.

pub mod config;
pub mod phase;
pub mod edge;
pub mod scheduler;
pub mod pulse;
pub mod dimmer;
pub mod sim;
