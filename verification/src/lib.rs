//! Uptime-monitor core: probe-outcome classification, run aggregation, and
//! alert composition, each with a verified contract. The surrounding program
//! performs the HTTP probes and hands their raw outcomes to this library.

pub mod alert;
mod clock;
pub mod domain;
pub mod numeral;
pub mod outcome;
pub mod summary;
