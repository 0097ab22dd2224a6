//! The state of one run and the report made from it.

pub mod clock;
pub mod order;
pub mod types;
