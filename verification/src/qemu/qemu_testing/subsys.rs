//! Subsystem identifiers: the most significant byte of a diagnostic code.
//!
//! Tooling outside the kernel matches on these numbers, so a value is added
//! for a new subsystem and none is ever renumbered.

use vstd::prelude::*;

verus! {

pub const BOOT: u8 = 0x01;

pub const GDT: u8 = 0x02;

pub const IDT: u8 = 0x03;

pub const PAGING: u8 = 0x04;

pub const MEMORY: u8 = 0x05;

pub const INTERRUPT: u8 = 0x06;

pub const SYSCALL: u8 = 0x07;

} // verus!
