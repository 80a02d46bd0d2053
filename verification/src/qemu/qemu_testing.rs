//! The diagnostic exit protocol.
//!
//! A failure is reported to the hosting emulator as one 32-bit word written
//! to its debug-exit port. This module packs the word and describes the
//! write; carrying the write out, and halting afterwards, is left to the
//! caller that owns the port.

use vstd::prelude::*;

pub mod err;
pub mod stage;
pub mod subsys;

verus! {

/// I/O port of the emulator's debug-exit device.
pub const QEMU_DEBUG_PORT: u16 = 0xF4;

/// The single port write that ends the run: `code`, as a 32-bit value, to
/// `port`. Control never comes back to the kernel after it.
#[derive(Clone, Copy, PartialEq, Eq, Structural, Debug)]
pub struct ExitSignal {
    pub port: u16,
    pub code: u32,
}

/// The code for a failure: four bytes in the order
/// `[ subsystem | stage | error | info ]`, most significant first.
pub open spec fn spec_panic_code(subsys: u8, stage: u8, error: u8, info: u8) -> u32 {
    ((subsys as u32) << 24) | ((stage as u32) << 16) | ((error as u32) << 8) | (info as u32)
}

/// The subsystem byte of a code.
pub open spec fn spec_code_subsys(code: u32) -> u8 {
    (code >> 24) as u8
}

/// The stage byte of a code.
pub open spec fn spec_code_stage(code: u32) -> u8 {
    ((code >> 16) & 0xFF) as u8
}

/// The error byte of a code.
pub open spec fn spec_code_error(code: u32) -> u8 {
    ((code >> 8) & 0xFF) as u8
}

/// The info byte of a code.
pub open spec fn spec_code_info(code: u32) -> u8 {
    (code & 0xFF) as u8
}

/// Packs the four bytes of a failure report into its code.
pub fn panic_code(subsys: u8, stage: u8, error: u8, info: u8) -> (code: u32)
    ensures
        code == spec_panic_code(subsys, stage, error, info),
        code == subsys * 0x100_0000 + stage * 0x1_0000 + error * 0x100 + info,
{
    proof {
        lemma_panic_code_value(subsys, stage, error, info);
    }
    ((subsys as u32) << 24) | ((stage as u32) << 16) | ((error as u32) << 8) | (info as u32)
}

/// The exit signal that reports `code`.
pub fn qemu_exit(code: u32) -> (signal: ExitSignal)
    ensures
        signal == (ExitSignal { port: QEMU_DEBUG_PORT, code }),
{
    ExitSignal { port: QEMU_DEBUG_PORT, code }
}

/// The exit signal that reports a failure of `subsys` at `stage`.
pub fn qemu_panic(subsys: u8, stage: u8, error: u8, info: u8) -> (signal: ExitSignal)
    ensures
        signal == (ExitSignal {
            port: QEMU_DEBUG_PORT,
            code: spec_panic_code(subsys, stage, error, info),
        }),
{
    qemu_exit(panic_code(subsys, stage, error, info))
}

/// A code is its four bytes written as one base-256 number.
pub proof fn lemma_panic_code_value(subsys: u8, stage: u8, error: u8, info: u8)
    ensures
        spec_panic_code(subsys, stage, error, info) == subsys * 0x100_0000 + stage * 0x1_0000
            + error * 0x100 + info,
{
    assert((((subsys as u32) << 24) | ((stage as u32) << 16) | ((error as u32) << 8) | (
    info as u32)) == subsys * 0x100_0000 + stage * 0x1_0000 + error * 0x100 + info)
        by (bit_vector);
}

/// Every byte that went into a code is read back from it unchanged, so two
/// reports with the same code agree in all four fields.
pub proof fn lemma_panic_code_fields(subsys: u8, stage: u8, error: u8, info: u8)
    ensures
        spec_code_subsys(spec_panic_code(subsys, stage, error, info)) == subsys,
        spec_code_stage(spec_panic_code(subsys, stage, error, info)) == stage,
        spec_code_error(spec_panic_code(subsys, stage, error, info)) == error,
        spec_code_info(spec_panic_code(subsys, stage, error, info)) == info,
{
    assert({
        let code = ((subsys as u32) << 24) | ((stage as u32) << 16) | ((error as u32) << 8) | (
        info as u32);
        &&& (code >> 24) as u8 == subsys
        &&& ((code >> 16) & 0xFF) as u8 == stage
        &&& ((code >> 8) & 0xFF) as u8 == error
        &&& (code & 0xFF) as u8 == info
    }) by (bit_vector);
}

} // verus!
