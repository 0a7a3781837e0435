//! Fee-gated transaction submission: a transaction is broadcast only once its
//! estimated fee is at or below a configured threshold, with a bounded number
//! of estimation attempts and exact integer fee accounting.

pub mod estimate;
pub mod fiat;
pub mod laws;
pub mod outcome;
pub mod submission;
pub mod wei;
