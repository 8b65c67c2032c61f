//! Capture of a pulse-width-modulated input signal: each pulse's duration in
//! hardware timer ticks is smoothed with a recursive weighted average and
//! near-center values are snapped to an exact neutral value to suppress
//! jitter.
//!
//! The crate holds the logic that runs inside the edge interrupt: the
//! one-shot hand-off of the hardware resources from the startup context to
//! the interrupt context, and the per-edge capture / filter / snap pipeline.
//! Reading the hardware counter, clearing the interrupt flag and reporting
//! are left to the platform layer around this crate.

pub mod capture;
pub mod dead_zone;
pub mod handoff;
pub mod pulse_filter;
