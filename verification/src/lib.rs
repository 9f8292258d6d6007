//! Attendance tracking and certificate issuing for club events.
//!
//! The crate models the whole state of the certification contract as plain
//! values, and states every operation on it as a verified transition.
pub mod error;
pub mod crypto;
pub mod table;
pub mod types;
pub mod rules;
pub mod contract;
pub mod laws;
pub mod outcomes;
