//! Segment descriptors of the global descriptor table.

pub mod descriptor_flags;
pub mod gdtentry;
