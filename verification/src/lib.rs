//! Nested integer sequences: three builders, each of which emits a run of
//! scaled indices and then appends the whole output of the next level down,
//! together with the one-line textual report of such sequences.

pub mod model;
pub mod levels;
pub mod laws;
pub mod report;

pub use levels::{allocate_even_more_memory, allocate_memory, allocate_more_memory, MAX_SIZE};
pub use report::{render, report, report_line};
