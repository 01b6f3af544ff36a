//! One pass of a memory-pressure relief tool: measure physical memory use,
//! and when it is at or above the threshold, trim the working set of every
//! other process.

pub mod driver;
pub mod enumerate;
pub mod memory;
pub mod trim;
