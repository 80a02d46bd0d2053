//! The boot loader's information block: its layout and its dispatch.

pub mod memory_parsing;
pub mod multiboot1_data;
