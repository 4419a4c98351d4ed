//! Core of a polite, concurrent crawler: a shared rate gate with a global
//! cooldown, a per-navigation retry state machine, deterministic partitioning
//! of work across workers, a single-writer storage funnel with
//! delete-then-insert upsert semantics, and a snapshot/metrics engine that
//! derives velocities and a composite virality score across repeated scans.
//!
//! All decision logic lives here and is verified; the surrounding process
//! (browser transport, spreadsheet input, command line, progress display)
//! drives these functions and performs the actual waiting and I/O.

pub mod text;
pub mod throttle;
pub mod fetch;
pub mod models;
pub mod store;
pub mod metrics;
pub mod worker;
pub mod utils;
