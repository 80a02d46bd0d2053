//! Error kinds: the third byte of a diagnostic code.
//!
//! The kernel core raises only some of these itself; the others are the
//! vocabulary that interrupt handlers use when they report through the same
//! exit protocol.

use vstd::prelude::*;

verus! {

pub const NONE: u8 = 0x00;

pub const NULL_PTR: u8 = 0x01;

pub const BAD_DESCRIPTOR: u8 = 0x02;

pub const PAGE_FAULT: u8 = 0x03;

pub const GPF: u8 = 0x04;

pub const DOUBLE_FAULT: u8 = 0x05;

pub const BAD_INTERRUPT: u8 = 0x06;

pub const UNKNOWN: u8 = 0xFF;

} // verus!
