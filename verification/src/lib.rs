//! Boot-time descriptor encoding, boot-information dispatch and the
//! diagnostic exit code of a small freestanding kernel.

pub mod datastructures;
pub mod gdt;
pub mod idt;
pub mod memory;
pub mod printing;
pub mod qemu;
