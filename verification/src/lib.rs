//! Input-acquisition and report-synthesis core of a seven-switch,
//! two-encoder game-controller peripheral.
//!
//! The crate converts raw electrical state (switch levels, monotonic
//! encoder tick counters, a microsecond clock, and inbound lighting
//! commands) into a fixed-layout input report and per-button lighting
//! outputs. Hardware access itself (pin reads and writes, the tick
//! sequencer, the transport) lives outside this crate; the core consumes
//! and produces plain values only.

pub mod clock;
pub mod controller;
pub mod debounce;
pub mod encoder;
pub mod hid_desc;
pub mod lighting;
