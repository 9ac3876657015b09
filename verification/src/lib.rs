//! A print-job spooling core: bounded FIFO buffers and priority wells feed a
//! mutually exclusive printer through a four-stage pipeline, while a registry
//! tracks every job's latest state.

use vstd::prelude::*;

pub mod buffer;
pub mod job;
pub mod nospooling;
pub mod printer;
pub mod registry;
pub mod spooling;
pub mod textfmt;
pub mod timefmt;
pub mod well;

verus! {

/// Timestamps are Unix epoch seconds (UTC).
pub type Timestamp = u64;

} // verus!
