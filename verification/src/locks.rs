//! Mutual exclusion between normal execution and interrupt handlers.

pub mod mutex;
pub mod spin;
