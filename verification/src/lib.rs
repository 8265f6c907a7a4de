//! Decision core of a dynamic-DNS updater: it turns the caller's public
//! address into one upsert of an A record and says, step by step, what the
//! surrounding program has to do next.

pub mod address;
pub mod change;
pub mod laws;
pub mod params;
pub mod report;
pub mod run;
