//! State of a referendum and the questions asked of it: whether a
//! referendum is waiting for a decision period, deciding (and then either
//! failing or confirming), or has ended as approved, rejected, cancelled or
//! killed.

pub mod types;
pub mod status;
pub mod laws;
