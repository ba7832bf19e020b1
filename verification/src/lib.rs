//! Safe, verified access layer over a native ephemeris calculation surface.
//!
//! The native library computes planetary positions; this crate holds the
//! logic around it: the lifecycle state machine that enforces the
//! configure-before-use-before-close protocol, the bitmask composition for
//! calculation options, the calendar-to-day-count conversion, and the
//! translation of raw output buffers into structured results.

pub mod body;
pub mod calc;
pub mod flag;
pub mod lifecycle;
pub mod metadata;
pub mod text;
pub mod time;
