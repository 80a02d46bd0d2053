//! Heap-allocated containers used while the kernel comes up.

pub mod linkedlist;
