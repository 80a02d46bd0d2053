//! Dispatch on the boot loader's magic value.
//!
//! The boot entry hands over two words: a magic value that names the boot
//! protocol, and the physical address of the loader's information block.
//! The dispatcher classifies the magic, queues a status line for whoever
//! watches the serial log, and ends in one of three outcomes: the version-1
//! block was read, a version-2 loader was recognised, or the magic is unknown
//! and the kernel has to stop. It stops by the diagnostic exit protocol; the
//! dispatcher hands back the exit signal, and the caller that owns the port
//! raises it.
//!
//! Memory behind the address is reached through [`PhysRead`] alone. That the
//! address is the one the loader gave, and that the bytes behind it stay put
//! while they are read, is taken on the loader's word.

use crate::memory::multiboot1_data::{MultibootInfo, INFO_SIZE};
use crate::printing::print::serial_write_string;
use crate::qemu::qemu_testing::{
    err, lemma_panic_code_fields, lemma_panic_code_value, qemu_panic, spec_code_error,
    spec_code_info, spec_code_stage, spec_code_subsys, spec_panic_code, stage, subsys, ExitSignal,
    QEMU_DEBUG_PORT,
};
use vstd::prelude::*;
use vstd::string::StringSliceAdditionalSpecFns;

verus! {

/// Magic value of a version-1 boot loader.
pub const MB1_BOOTLOADER_MAGIC: u32 = 0x2BADB002;

/// Magic value of a version-2 boot loader.
pub const MB2_BOOTLOADER_MAGIC: u32 = 0x36D76289;

/// Smallest version-2 information block: its 8-byte header and the 8-byte tag
/// that ends the tag stream.
pub const MB2_MIN_INFO_SIZE: usize = 16;

/// Info byte of the diagnostic code for an unknown magic value.
pub const UNRECOGNIZED_MAGIC_INFO: u8 = 0x01;

/// Status line for either known boot loader.
pub const STATUS_LOADER_ACTIVE: &'static str = "boot loader is indeed activated :)";

/// Status line for a version-1 boot loader.
pub const STATUS_MULTIBOOT1: &'static str = "kernel is using multiboot 1";

/// Status line for a version-2 boot loader.
pub const STATUS_MULTIBOOT2: &'static str = "kernel is using multiboot 2";

/// Status line for an unknown magic value.
pub const STATUS_UNIDENTIFIED: &'static str = "multi boot has not been idenified";

/// Read access to physical memory.
///
/// `paddr_to_slice` gives a view of the `len` bytes that start at the
/// physical address `paddr`, or `None` where it cannot give one. The caller
/// of an implementation answers for the region: that it is mapped, and that
/// nothing writes to it while the view is in use.
pub trait PhysRead {
    fn paddr_to_slice(&self, paddr: u64, len: usize) -> Option<&'static [u8]>;
}

/// A boot protocol that the kernel knows.
#[derive(Debug, Clone, Copy, PartialEq, Eq, Structural)]
pub enum BootProtocol {
    Multiboot1,
    Multiboot2,
}

/// How a dispatch ended. Each outcome is final: nothing is tried again.
#[derive(Debug, Clone, Copy, PartialEq, Eq)]
pub enum BootOutcome {
    /// A version-1 loader. Holds the fields of its information block, or
    /// `None` where no view of the whole block could be had.
    V1Parsed(Option<MultibootInfo>),
    /// A version-2 loader. Its tag stream is not read.
    V2Recognized,
    /// An unknown loader: the kernel stops with this exit signal.
    Fatal(ExitSignal),
}

/// The protocol that `magic` names, if it names one.
pub open spec fn spec_classify(magic: u32) -> Option<BootProtocol> {
    if magic == MB1_BOOTLOADER_MAGIC {
        Some(BootProtocol::Multiboot1)
    } else if magic == MB2_BOOTLOADER_MAGIC {
        Some(BootProtocol::Multiboot2)
    } else {
        None
    }
}

/// The bytes queued for the serial log on a dispatch with `magic`.
pub open spec fn spec_status(magic: u32) -> Seq<u8> {
    match spec_classify(magic) {
        Some(BootProtocol::Multiboot1) => STATUS_LOADER_ACTIVE.spec_bytes()
            + STATUS_MULTIBOOT1.spec_bytes(),
        Some(BootProtocol::Multiboot2) => STATUS_LOADER_ACTIVE.spec_bytes()
            + STATUS_MULTIBOOT2.spec_bytes(),
        None => STATUS_UNIDENTIFIED.spec_bytes(),
    }
}

/// The exit signal for an unknown magic value: no memory map can be trusted,
/// so the memory subsystem reports a double fault during initialisation.
pub open spec fn spec_unrecognized_signal() -> ExitSignal {
    ExitSignal {
        port: QEMU_DEBUG_PORT,
        code: spec_panic_code(
            subsys::MEMORY,
            stage::INIT,
            err::DOUBLE_FAULT,
            UNRECOGNIZED_MAGIC_INFO,
        ),
    }
}

/// The outcome of a dispatch with `magic`, where `view` is what a read of the
/// information block gave. Only a version-1 magic looks at `view`.
pub open spec fn spec_outcome(magic: u32, view: Option<Seq<u8>>) -> BootOutcome {
    match spec_classify(magic) {
        Some(BootProtocol::Multiboot1) => match view {
            Some(block) => if block.len() >= INFO_SIZE {
                BootOutcome::V1Parsed(Some(MultibootInfo::spec_parse(block)))
            } else {
                BootOutcome::V1Parsed(None)
            },
            None => BootOutcome::V1Parsed(None),
        },
        Some(BootProtocol::Multiboot2) => BootOutcome::V2Recognized,
        None => BootOutcome::Fatal(spec_unrecognized_signal()),
    }
}

/// The bytes of a view, if there is one.
pub open spec fn spec_view_bytes(view: Option<&[u8]>) -> Option<Seq<u8>> {
    match view {
        Some(block) => Some(block@),
        None => None,
    }
}

/// Classifies a magic value.
pub fn classify(magic: u32) -> (protocol: Option<BootProtocol>)
    ensures
        protocol == spec_classify(magic),
{
    if magic == MB1_BOOTLOADER_MAGIC {
        Some(BootProtocol::Multiboot1)
    } else if magic == MB2_BOOTLOADER_MAGIC {
        Some(BootProtocol::Multiboot2)
    } else {
        None
    }
}

/// Queues the status line of a dispatch with `magic` behind what is already
/// waiting in `line`.
pub fn write_status(magic: u32, line: &mut Vec<u8>)
    ensures
        final(line)@ == old(line)@ + spec_status(magic),
{
    match classify(magic) {
        Some(BootProtocol::Multiboot1) => {
            serial_write_string(line, STATUS_LOADER_ACTIVE);
            serial_write_string(line, STATUS_MULTIBOOT1);
            assert(line@ =~= old(line)@ + spec_status(magic));
        },
        Some(BootProtocol::Multiboot2) => {
            serial_write_string(line, STATUS_LOADER_ACTIVE);
            serial_write_string(line, STATUS_MULTIBOOT2);
            assert(line@ =~= old(line)@ + spec_status(magic));
        },
        None => {
            serial_write_string(line, STATUS_UNIDENTIFIED);
        },
    }
}

/// The outcome of a dispatch with `magic`, given what a read of the
/// information block returned.
pub fn boot_outcome(magic: u32, view: Option<&[u8]>) -> (outcome: BootOutcome)
    ensures
        outcome == spec_outcome(magic, spec_view_bytes(view)),
{
    match classify(magic) {
        Some(BootProtocol::Multiboot1) => match view {
            Some(block) => BootOutcome::V1Parsed(MultibootInfo::parse(block)),
            None => BootOutcome::V1Parsed(None),
        },
        Some(BootProtocol::Multiboot2) => BootOutcome::V2Recognized,
        None => BootOutcome::Fatal(
            qemu_panic(subsys::MEMORY, stage::INIT, err::DOUBLE_FAULT, UNRECOGNIZED_MAGIC_INFO),
        ),
    }
}

/// Dispatches on `magic`.
///
/// The status line goes to `line`. For a version-1 magic the information
/// block is read through `mem`, at the address `mbi_phys` and in its full
/// length, and the outcome is [`boot_outcome`] of what that read returned;
/// for any other magic `mem` is not touched. An unknown magic ends in
/// `Fatal`, with the exit signal that the caller has to raise.
pub fn rust_parse_multiboot_mapper<R: PhysRead>(
    magic: u32,
    mbi_phys: u32,
    mem: &R,
    line: &mut Vec<u8>,
) -> (outcome: BootOutcome)
    ensures
        final(line)@ == old(line)@ + spec_status(magic),
        magic == MB1_BOOTLOADER_MAGIC ==> outcome is V1Parsed,
        magic == MB2_BOOTLOADER_MAGIC ==> outcome == BootOutcome::V2Recognized,
        magic != MB1_BOOTLOADER_MAGIC && magic != MB2_BOOTLOADER_MAGIC ==> outcome
            == BootOutcome::Fatal(spec_unrecognized_signal()),
        magic == MB1_BOOTLOADER_MAGIC ==> (exists|view: Option<&'static [u8]>|
            #[trigger] call_ensures(R::paddr_to_slice, (mem, mbi_phys as u64, INFO_SIZE), view)
                && outcome == spec_outcome(magic, spec_view_bytes(view))),
{
    write_status(magic, line);
    let view = if magic == MB1_BOOTLOADER_MAGIC {
        mem.paddr_to_slice(mbi_phys as u64, INFO_SIZE)
    } else {
        None
    };
    let outcome = boot_outcome(magic, view);
    assert(outcome == spec_outcome(magic, spec_view_bytes(view)));
    outcome
}

/// A version-1 magic ends in `V1Parsed`, whatever the read gave: the exit
/// protocol is not entered.
pub proof fn lemma_multiboot1_is_parsed(view: Option<Seq<u8>>)
    ensures
        spec_classify(MB1_BOOTLOADER_MAGIC) == Some(BootProtocol::Multiboot1),
        spec_outcome(MB1_BOOTLOADER_MAGIC, view) is V1Parsed,
{
}

/// A version-2 magic ends in `V2Recognized`: the exit protocol is not
/// entered.
pub proof fn lemma_multiboot2_is_recognized(view: Option<Seq<u8>>)
    ensures
        spec_classify(MB2_BOOTLOADER_MAGIC) == Some(BootProtocol::Multiboot2),
        spec_outcome(MB2_BOOTLOADER_MAGIC, view) == BootOutcome::V2Recognized,
{
}

/// Every magic value other than the two known ones ends in `Fatal`, with the
/// one exit signal whose code names the memory subsystem, the initialisation
/// stage and a double fault.
pub proof fn lemma_unknown_magic_is_fatal(magic: u32, view: Option<Seq<u8>>)
    requires
        magic != MB1_BOOTLOADER_MAGIC,
        magic != MB2_BOOTLOADER_MAGIC,
    ensures
        spec_classify(magic).is_none(),
        spec_outcome(magic, view) == BootOutcome::Fatal(spec_unrecognized_signal()),
        spec_unrecognized_signal().port == 0xF4,
        spec_unrecognized_signal().code == 0x0502_0501,
        spec_code_subsys(spec_unrecognized_signal().code) == subsys::MEMORY,
        spec_code_stage(spec_unrecognized_signal().code) == stage::INIT,
        spec_code_error(spec_unrecognized_signal().code) == err::DOUBLE_FAULT,
        spec_code_info(spec_unrecognized_signal().code) == UNRECOGNIZED_MAGIC_INFO,
{
    lemma_panic_code_value(
        subsys::MEMORY,
        stage::INIT,
        err::DOUBLE_FAULT,
        UNRECOGNIZED_MAGIC_INFO,
    );
    lemma_panic_code_fields(
        subsys::MEMORY,
        stage::INIT,
        err::DOUBLE_FAULT,
        UNRECOGNIZED_MAGIC_INFO,
    );
}

} // verus!
