//! Entries of the interrupt descriptor table.

pub mod makeidt;
