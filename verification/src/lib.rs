//! Codec for the fixed-layout feature report of a Glorious Model O mouse.
//!
//! The report is a raw byte buffer exchanged with the device; this crate
//! proves the bidirectional mapping between that buffer and a typed
//! configuration model (lighting effect, lift-off distance, polling rate).

pub mod feature_report;
