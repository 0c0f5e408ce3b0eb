//! Verified core of the FemtoClaw benchmark suite: the strict protocol
//! validator, the bounded short-term memory used by the memory benchmarks,
//! the preset planner and the timing loop.

pub mod util;
pub mod text;
pub mod json;
pub mod protocol;
pub mod benchmarks;
