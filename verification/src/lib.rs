//! Log sink management and retention engine.
//!
//! The library holds the decision and formatting logic of a persistent
//! logging subsystem: severity filtering, local-time rendering, daily
//! rotation naming, age-based retention sweeps, and truncate-in-place
//! clearing. Filesystem and console I/O live outside the library; the
//! functions here work on plain values describing directory entries and
//! instants, so every rule is stated and proved.

pub mod clearing;
pub mod digits;
pub mod errors;
pub mod events;
pub mod fsmodel;
pub mod httpcfg;
pub mod initguard;
pub mod level;
pub mod retention;
pub mod rotation;
pub mod timefmt;
