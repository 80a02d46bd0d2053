//! The diagnostic exit protocol.

pub mod qemu_testing;
