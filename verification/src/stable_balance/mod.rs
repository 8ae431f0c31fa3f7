//! Stable balance: the conversion queue that serializes per-receive,
//! auto-convert and deactivation conversions.

pub mod queue;
