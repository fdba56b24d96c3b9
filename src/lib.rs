//! A policy gate for automated runs: evaluate a run's policy, issue an
//! approval token bound to one policy snapshot, and execute only when a
//! supplied token was issued against the snapshot that is current.

pub mod model;
pub mod execute;
pub mod evaluate;
pub mod approve;
pub mod protocol;
