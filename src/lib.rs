//! A background latency probe: a bounded history of probe outcomes, the
//! scheduler state that decides each tick, and the parsing and rendering of
//! the values that pass through it.
pub mod fixed_size_deque;
pub mod fixed_size_queue;
pub mod address;
pub mod result;
pub mod worker;
