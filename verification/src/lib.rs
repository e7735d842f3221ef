//! A live-telemetry relay core: a bounded broadcast medium that fans frames
//! from one producer out to any number of independently paced subscribers,
//! together with the ingest bookkeeping and the per-subscriber session
//! state machine. Transports live outside this crate; everything here works
//! on plain values.

pub mod frame;
pub mod ingest;
pub mod laws;
pub mod medium;
pub mod session;
