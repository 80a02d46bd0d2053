//! Lifecycle stage identifiers: the second byte of a diagnostic code.

use vstd::prelude::*;

verus! {

pub const ENTER: u8 = 0x01;

pub const INIT: u8 = 0x02;

pub const LOAD: u8 = 0x03;

pub const ENABLE: u8 = 0x04;

pub const HANDLE: u8 = 0x05;

} // verus!
