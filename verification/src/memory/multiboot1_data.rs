//! The version-1 boot information block.
//!
//! The boot loader leaves a record of fixed layout in memory and hands the
//! kernel its address. The types here hold the fields of that record, and
//! `MultibootInfo::parse` reads them from the bytes of the block: every field
//! is little-endian and sits at the offset that the loader's contract gives
//! it, with no padding between fields.
//!
//! Two regions of the block overlap two layouts each (the symbol table and
//! the framebuffer colour description). They are kept as the raw bytes they
//! are and decoded on request, by the tag that selects the layout.

use vstd::prelude::*;

verus! {

/// Value found in `eax` when a version-1 boot loader enters the kernel.
pub const SIGNATURE_EAX: u32 = 0x2BADB002;

/// A physical address.
pub type PAddr = u64;

/// Number of bytes of the information block.
pub const INFO_SIZE: usize = 116;

/// Number of bytes of a memory-map entry, its `size` field included.
pub const MEMORY_ENTRY_SIZE: usize = 24;

/// Bit of the flags word that announces an a.out symbol table.
pub const FLAG_AOUT_SYMBOLS: u32 = 1 << 4;

/// Bit of the flags word that announces an ELF section header table.
pub const FLAG_ELF_SYMBOLS: u32 = 1 << 5;

/// Framebuffer type: indexed colour.
pub const FRAMEBUFFER_INDEXED: u8 = 0;

/// Framebuffer type: direct RGB colour.
pub const FRAMEBUFFER_RGB: u8 = 1;

/// Framebuffer type: EGA text.
pub const FRAMEBUFFER_TEXT: u8 = 2;

/// The 16-bit little-endian number at offset `at` of `block`.
pub open spec fn spec_u16_le(block: Seq<u8>, at: int) -> u16 {
    (block[at] + 0x100 * block[at + 1]) as u16
}

/// The 32-bit little-endian number at offset `at` of `block`.
pub open spec fn spec_u32_le(block: Seq<u8>, at: int) -> u32 {
    (spec_u16_le(block, at) + 0x1_0000 * spec_u16_le(block, at + 2)) as u32
}

/// The 64-bit little-endian number at offset `at` of `block`.
pub open spec fn spec_u64_le(block: Seq<u8>, at: int) -> u64 {
    (spec_u32_le(block, at) + 0x1_0000_0000 * spec_u32_le(block, at + 4)) as u64
}

fn read_u16_le(block: &[u8], at: usize) -> (value: u16)
    requires
        at + 2 <= block.len(),
    ensures
        value == spec_u16_le(block@, at as int),
{
    let low: u16 = block[at] as u16;
    let high: u16 = block[at + 1] as u16;
    low + 0x100 * high
}

fn read_u32_le(block: &[u8], at: usize) -> (value: u32)
    requires
        at + 4 <= block.len(),
    ensures
        value == spec_u32_le(block@, at as int),
{
    let low: u32 = read_u16_le(block, at) as u32;
    let high: u32 = read_u16_le(block, at + 2) as u32;
    low + 0x1_0000 * high
}

fn read_u64_le(block: &[u8], at: usize) -> (value: u64)
    requires
        at + 8 <= block.len(),
    ensures
        value == spec_u64_le(block@, at as int),
{
    let low: u64 = read_u32_le(block, at) as u64;
    let high: u64 = read_u32_le(block, at + 4) as u64;
    low + 0x1_0000_0000 * high
}

/// The `boot_device` field: the disk the kernel was loaded from.
#[derive(Debug, Clone, Copy, PartialEq, Eq, Structural)]
pub struct BootDevice {
    pub drive: u8,
    pub partition1: u8,
    pub partition2: u8,
    pub partition3: u8,
}

impl Default for BootDevice {
    /// No drive and no partition: every field holds `0xff`.
    fn default() -> (device: Self)
        ensures
            device == (BootDevice {
                drive: 0xff,
                partition1: 0xff,
                partition2: 0xff,
                partition3: 0xff,
            }),
    {
        Self { drive: 0xff, partition1: 0xff, partition2: 0xff, partition3: 0xff }
    }
}

/// A boot module as the loader stores it.
#[derive(Clone, Copy, Debug, PartialEq, Eq, Structural)]
pub struct MBModule {
    pub start: u32,
    pub end: u32,
    pub string: u32,
    pub reserved: u32,
}

impl Default for MBModule {
    fn default() -> (module: Self)
        ensures
            module == (MBModule { start: 0, end: 0, string: 0, reserved: 0 }),
    {
        Self { start: 0, end: 0, string: 0, reserved: 0 }
    }
}

/// What a region of the memory map may be used for.
#[derive(Debug, PartialEq, Eq, Structural, Clone, Copy)]
pub enum MemoryType {
    /// Memory available to the kernel.
    Available,
    /// Reserved: ROM, memory-mapped devices.
    Reserved,
    /// ACPI tables, reclaimable once they were read.
    ACPI,
    /// ACPI non-volatile storage.
    NVS,
    /// Defective RAM.
    Defect,
}

impl MemoryType {
    /// The number that stands for this type in a memory-map entry.
    pub open spec fn spec_code(self) -> u32 {
        match self {
            MemoryType::Available => 1,
            MemoryType::Reserved => 2,
            MemoryType::ACPI => 3,
            MemoryType::NVS => 4,
            MemoryType::Defect => 5,
        }
    }

    /// The type that `code` stands for, if it stands for one.
    pub open spec fn spec_from_code(code: u32) -> Option<MemoryType> {
        if code == 1 {
            Some(MemoryType::Available)
        } else if code == 2 {
            Some(MemoryType::Reserved)
        } else if code == 3 {
            Some(MemoryType::ACPI)
        } else if code == 4 {
            Some(MemoryType::NVS)
        } else if code == 5 {
            Some(MemoryType::Defect)
        } else {
            None
        }
    }

    /// The number that stands for this type in a memory-map entry.
    pub fn code(self) -> (code: u32)
        ensures
            code == self.spec_code(),
            MemoryType::spec_from_code(code) == Some(self),
    {
        match self {
            MemoryType::Available => 1,
            MemoryType::Reserved => 2,
            MemoryType::ACPI => 3,
            MemoryType::NVS => 4,
            MemoryType::Defect => 5,
        }
    }

    /// The type that `code` stands for; `None` for a number that stands for
    /// none.
    pub fn from_code(code: u32) -> (memory_type: Option<MemoryType>)
        ensures
            memory_type == MemoryType::spec_from_code(code),
            memory_type.is_some() <==> 1 <= code <= 5,
            memory_type matches Some(t) ==> t.spec_code() == code,
    {
        match code {
            1 => Some(MemoryType::Available),
            2 => Some(MemoryType::Reserved),
            3 => Some(MemoryType::ACPI),
            4 => Some(MemoryType::NVS),
            5 => Some(MemoryType::Defect),
            _ => None,
        }
    }
}

/// An entry of the memory map.
///
/// In memory the entry is packed: `size` at offset 0, `base_addr` at 4,
/// `length` at 12 and `mtype` at 20. `size` counts the bytes that follow it,
/// itself not included.
#[derive(Clone, Copy, Debug, PartialEq, Eq, Structural)]
pub struct MemoryEntry {
    pub size: u32,
    pub base_addr: u64,
    pub length: u64,
    pub mtype: u32,
}

impl Default for MemoryEntry {
    /// A reserved region of no bytes at address 0.
    fn default() -> (entry: Self)
        ensures
            entry == (MemoryEntry {
                size: 20,
                base_addr: 0,
                length: 0,
                mtype: MemoryType::Reserved.spec_code(),
            }),
    {
        Self { size: 20, base_addr: 0, length: 0, mtype: MemoryType::Reserved.code() }
    }
}

impl MemoryEntry {
    /// The entry that the first bytes of `block` hold.
    pub open spec fn spec_parse(block: Seq<u8>) -> MemoryEntry {
        MemoryEntry {
            size: spec_u32_le(block, 0),
            base_addr: spec_u64_le(block, 4),
            length: spec_u64_le(block, 12),
            mtype: spec_u32_le(block, 20),
        }
    }

    /// Reads an entry from the start of `block`; `None` where `block` is too
    /// short to hold one.
    pub fn parse(block: &[u8]) -> (entry: Option<MemoryEntry>)
        ensures
            block@.len() < MEMORY_ENTRY_SIZE ==> entry.is_none(),
            block@.len() >= MEMORY_ENTRY_SIZE ==> entry == Some(MemoryEntry::spec_parse(block@)),
    {
        if block.len() < MEMORY_ENTRY_SIZE {
            return None;
        }
        Some(
            MemoryEntry {
                size: read_u32_le(block, 0),
                base_addr: read_u64_le(block, 4),
                length: read_u64_le(block, 12),
                mtype: read_u32_le(block, 20),
            },
        )
    }

    /// What the region may be used for; `None` where the entry holds a type
    /// code that stands for nothing.
    pub fn memory_type(&self) -> (memory_type: Option<MemoryType>)
        ensures
            memory_type == MemoryType::spec_from_code(self.mtype),
    {
        MemoryType::from_code(self.mtype)
    }
}

/// A boot module with its addresses widened and its name resolved.
#[derive(Debug)]
pub struct Module<'a> {
    pub start: PAddr,
    pub end: PAddr,
    pub string: Option<&'a str>,
}

impl<'a> Module<'a> {
    pub fn new(start: PAddr, end: PAddr, name: Option<&'a str>) -> (module: Self)
        ensures
            module.start == start,
            module.end == end,
            module.string == name,
    {
        Self { start, end, string: name }
    }
}

/// The symbol-table region of the block, undecoded: four 32-bit words that
/// hold either an a.out or an ELF description. Which one is told by the flags
/// word of the block, not by the region itself.
#[derive(Clone, Copy, Debug, PartialEq, Eq, Structural)]
pub struct Symbols {
    pub word0: u32,
    pub word1: u32,
    pub word2: u32,
    pub word3: u32,
}

impl Default for Symbols {
    fn default() -> (symbols: Self)
        ensures
            symbols == (Symbols { word0: 0, word1: 0, word2: 0, word3: 0 }),
            symbols.spec_elf() == (ElfSymbols { num: 0, size: 0, addr: 0, shndx: 0 }),
    {
        Self { word0: 0, word1: 0, word2: 0, word3: 0 }
    }
}

impl Symbols {
    /// The region read as an a.out symbol table.
    pub open spec fn spec_aout(self) -> AOutSymbols {
        AOutSymbols {
            tabsize: self.word0,
            strsize: self.word1,
            addr: self.word2,
            reserved: self.word3,
        }
    }

    /// The region read as an ELF section header table.
    pub open spec fn spec_elf(self) -> ElfSymbols {
        ElfSymbols { num: self.word0, size: self.word1, addr: self.word2, shndx: self.word3 }
    }

    /// The region read as an a.out symbol table.
    pub fn aout(&self) -> (aout: AOutSymbols)
        ensures
            aout == self.spec_aout(),
    {
        AOutSymbols {
            tabsize: self.word0,
            strsize: self.word1,
            addr: self.word2,
            reserved: self.word3,
        }
    }

    /// The region read as an ELF section header table.
    pub fn elf(&self) -> (elf: ElfSymbols)
        ensures
            elf == self.spec_elf(),
    {
        ElfSymbols { num: self.word0, size: self.word1, addr: self.word2, shndx: self.word3 }
    }
}

/// The symbol-table region, decoded by the layout that the flags word names.
#[derive(Debug, Copy, Clone, PartialEq, Eq, Structural)]
pub enum SymbolType {
    AOut(AOutSymbols),
    Elf(ElfSymbols),
}

/// Symbol table of an a.out kernel image.
#[derive(Copy, Clone, Debug, PartialEq, Eq, Structural)]
pub struct AOutSymbols {
    pub tabsize: u32,
    pub strsize: u32,
    pub addr: u32,
    pub reserved: u32,
}

impl Default for AOutSymbols {
    fn default() -> (aout: Self)
        ensures
            aout == (AOutSymbols { tabsize: 0, strsize: 0, addr: 0, reserved: 0 }),
    {
        Self { tabsize: 0, strsize: 0, addr: 0, reserved: 0 }
    }
}

/// Section header table of an ELF kernel image.
#[derive(Copy, Clone, Debug, PartialEq, Eq, Structural)]
pub struct ElfSymbols {
    pub num: u32,
    pub size: u32,
    pub addr: u32,
    pub shndx: u32,
}

impl Default for ElfSymbols {
    fn default() -> (elf: Self)
        ensures
            elf == (ElfSymbols { num: 0, size: 0, addr: 0, shndx: 0 }),
    {
        Self { num: 0, size: 0, addr: 0, shndx: 0 }
    }
}

/// Palette description of an indexed-colour framebuffer.
#[derive(Debug, Clone, Copy, PartialEq, Eq, Structural)]
pub struct ColorInfoPalette {
    pub palette_addr: u32,
    pub palette_num_colors: u16,
}

/// Channel layout of a direct-colour framebuffer.
#[derive(Debug, Clone, Copy, PartialEq, Eq, Structural)]
pub struct ColorInfoRgb {
    pub red_field_position: u8,
    pub red_mask_size: u8,
    pub green_field_position: u8,
    pub green_mask_size: u8,
    pub blue_field_position: u8,
    pub blue_mask_size: u8,
}

/// The colour region of the framebuffer table, undecoded: the six bytes as
/// they stand in the block. The framebuffer type tells how to read them.
#[derive(Debug, Clone, Copy, PartialEq, Eq, Structural)]
pub struct ColorInfo {
    pub byte0: u8,
    pub byte1: u8,
    pub byte2: u8,
    pub byte3: u8,
    pub byte4: u8,
    pub byte5: u8,
}

impl Default for ColorInfo {
    /// The region of the default framebuffer type, indexed colour: a palette
    /// at address 0 with no colours.
    fn default() -> (info: Self)
        ensures
            info == (ColorInfo { byte0: 0, byte1: 0, byte2: 0, byte3: 0, byte4: 0, byte5: 0 }),
            info.spec_palette() == (ColorInfoPalette { palette_addr: 0, palette_num_colors: 0 }),
    {
        Self { byte0: 0, byte1: 0, byte2: 0, byte3: 0, byte4: 0, byte5: 0 }
    }
}

impl ColorInfo {
    /// The region read as a palette description: a 32-bit address, then a
    /// 16-bit count, both little-endian.
    pub open spec fn spec_palette(self) -> ColorInfoPalette {
        ColorInfoPalette {
            palette_addr: (self.byte0 + 0x100 * self.byte1 + 0x1_0000 * self.byte2 + 0x100_0000
                * self.byte3) as u32,
            palette_num_colors: (self.byte4 + 0x100 * self.byte5) as u16,
        }
    }

    /// The region read as an RGB channel layout: one field per byte.
    pub open spec fn spec_rgb(self) -> ColorInfoRgb {
        ColorInfoRgb {
            red_field_position: self.byte0,
            red_mask_size: self.byte1,
            green_field_position: self.byte2,
            green_mask_size: self.byte3,
            blue_field_position: self.byte4,
            blue_mask_size: self.byte5,
        }
    }

    /// The region read as a palette description.
    pub fn palette(&self) -> (palette: ColorInfoPalette)
        ensures
            palette == self.spec_palette(),
    {
        let addr: u32 = self.byte0 as u32 + 0x100 * (self.byte1 as u32) + 0x1_0000 * (
        self.byte2 as u32) + 0x100_0000 * (self.byte3 as u32);
        let count: u16 = self.byte4 as u16 + 0x100 * (self.byte5 as u16);
        ColorInfoPalette { palette_addr: addr, palette_num_colors: count }
    }

    /// The region read as an RGB channel layout.
    pub fn rgb(&self) -> (rgb: ColorInfoRgb)
        ensures
            rgb == self.spec_rgb(),
    {
        ColorInfoRgb {
            red_field_position: self.byte0,
            red_mask_size: self.byte1,
            green_field_position: self.byte2,
            green_mask_size: self.byte3,
            blue_field_position: self.byte4,
            blue_mask_size: self.byte5,
        }
    }
}

/// The colour region, decoded by the layout that the framebuffer type names.
#[derive(Debug, Clone, Copy, PartialEq, Eq, Structural)]
pub enum ColorInfoType {
    Palette(ColorInfoPalette),
    Rgb(ColorInfoRgb),
    Text,
}

/// Description of the framebuffer that the loader set up.
#[derive(Debug, Clone, Copy, PartialEq, Eq, Structural)]
pub struct FramebufferTable {
    pub addr: u64,
    pub pitch: u32,
    pub width: u32,
    pub height: u32,
    pub bpp: u8,
    pub ty: u8,
    pub color_info: ColorInfo,
}

impl Default for FramebufferTable {
    fn default() -> (table: Self)
        ensures
            table == (FramebufferTable {
                addr: 0,
                pitch: 0,
                width: 0,
                height: 0,
                bpp: 0,
                ty: 0,
                color_info: ColorInfo {
                    byte0: 0,
                    byte1: 0,
                    byte2: 0,
                    byte3: 0,
                    byte4: 0,
                    byte5: 0,
                },
            }),
    {
        Self {
            addr: 0,
            pitch: 0,
            width: 0,
            height: 0,
            bpp: 0,
            ty: 0,
            color_info: ColorInfo::default(),
        }
    }
}

impl FramebufferTable {
    /// The colour region read by the framebuffer type: a palette for indexed
    /// colour, a channel layout for RGB, nothing more for text, and no
    /// reading at all for a type that is none of the three.
    pub open spec fn spec_color_info(self) -> Option<ColorInfoType> {
        if self.ty == FRAMEBUFFER_INDEXED {
            Some(ColorInfoType::Palette(self.color_info.spec_palette()))
        } else if self.ty == FRAMEBUFFER_RGB {
            Some(ColorInfoType::Rgb(self.color_info.spec_rgb()))
        } else if self.ty == FRAMEBUFFER_TEXT {
            Some(ColorInfoType::Text)
        } else {
            None
        }
    }

    /// Decodes the colour region by the framebuffer type.
    pub fn color_info(&self) -> (info: Option<ColorInfoType>)
        ensures
            info == self.spec_color_info(),
    {
        if self.ty == FRAMEBUFFER_INDEXED {
            Some(ColorInfoType::Palette(self.color_info.palette()))
        } else if self.ty == FRAMEBUFFER_RGB {
            Some(ColorInfoType::Rgb(self.color_info.rgb()))
        } else if self.ty == FRAMEBUFFER_TEXT {
            Some(ColorInfoType::Text)
        } else {
            None
        }
    }
}

/// The fields of the information block, in the order in which the block
/// holds them.
#[derive(Debug, Clone, Copy, PartialEq, Eq, Structural)]
pub struct MultibootInfo {
    pub flags: u32,
    pub mem_lower: u32,
    pub mem_upper: u32,
    pub boot_device: BootDevice,
    /// Physical address of a zero-terminated string.
    pub cmdline: u32,
    pub mods_count: u32,
    pub mods_addr: u32,
    pub symbols: Symbols,
    pub mmap_length: u32,
    pub mmap_addr: u32,
    pub drives_length: u32,
    pub drives_addr: u32,
    pub config_table: u32,
    /// Physical address of a zero-terminated string.
    pub boot_loader_name: u32,
    pub apm_table: u32,
    pub vbe_control_info: u32,
    pub vbe_mode_info: u32,
    pub vbe_mode: u16,
    pub vbe_interface_seg: u16,
    pub vbe_interface_off: u16,
    pub vbe_interface_len: u16,
    pub framebuffer_table: FramebufferTable,
}

impl Default for MultibootInfo {
    /// A block that announces nothing: all fields zero, but for the boot
    /// device, which names no drive.
    fn default() -> (info: Self)
        ensures
            info == MultibootInfo::spec_default(),
    {
        Self {
            flags: 0,
            mem_lower: 0,
            mem_upper: 0,
            boot_device: BootDevice::default(),
            cmdline: 0,
            mods_count: 0,
            mods_addr: 0,
            symbols: Symbols::default(),
            mmap_length: 0,
            mmap_addr: 0,
            drives_length: 0,
            drives_addr: 0,
            config_table: 0,
            boot_loader_name: 0,
            apm_table: 0,
            vbe_control_info: 0,
            vbe_mode_info: 0,
            vbe_mode: 0,
            vbe_interface_seg: 0,
            vbe_interface_off: 0,
            vbe_interface_len: 0,
            framebuffer_table: FramebufferTable::default(),
        }
    }
}

impl MultibootInfo {
    /// The block that announces nothing.
    pub open spec fn spec_default() -> MultibootInfo {
        MultibootInfo {
            flags: 0,
            mem_lower: 0,
            mem_upper: 0,
            boot_device: BootDevice {
                drive: 0xff,
                partition1: 0xff,
                partition2: 0xff,
                partition3: 0xff,
            },
            cmdline: 0,
            mods_count: 0,
            mods_addr: 0,
            symbols: Symbols { word0: 0, word1: 0, word2: 0, word3: 0 },
            mmap_length: 0,
            mmap_addr: 0,
            drives_length: 0,
            drives_addr: 0,
            config_table: 0,
            boot_loader_name: 0,
            apm_table: 0,
            vbe_control_info: 0,
            vbe_mode_info: 0,
            vbe_mode: 0,
            vbe_interface_seg: 0,
            vbe_interface_off: 0,
            vbe_interface_len: 0,
            framebuffer_table: FramebufferTable {
                addr: 0,
                pitch: 0,
                width: 0,
                height: 0,
                bpp: 0,
                ty: 0,
                color_info: ColorInfo {
                    byte0: 0,
                    byte1: 0,
                    byte2: 0,
                    byte3: 0,
                    byte4: 0,
                    byte5: 0,
                },
            },
        }
    }

    /// The fields that the first `INFO_SIZE` bytes of `block` hold: each at
    /// its fixed offset, little-endian, with nothing between them.
    pub open spec fn spec_parse(block: Seq<u8>) -> MultibootInfo {
        MultibootInfo {
            flags: spec_u32_le(block, 0),
            mem_lower: spec_u32_le(block, 4),
            mem_upper: spec_u32_le(block, 8),
            boot_device: BootDevice {
                drive: block[12],
                partition1: block[13],
                partition2: block[14],
                partition3: block[15],
            },
            cmdline: spec_u32_le(block, 16),
            mods_count: spec_u32_le(block, 20),
            mods_addr: spec_u32_le(block, 24),
            symbols: Symbols {
                word0: spec_u32_le(block, 28),
                word1: spec_u32_le(block, 32),
                word2: spec_u32_le(block, 36),
                word3: spec_u32_le(block, 40),
            },
            mmap_length: spec_u32_le(block, 44),
            mmap_addr: spec_u32_le(block, 48),
            drives_length: spec_u32_le(block, 52),
            drives_addr: spec_u32_le(block, 56),
            config_table: spec_u32_le(block, 60),
            boot_loader_name: spec_u32_le(block, 64),
            apm_table: spec_u32_le(block, 68),
            vbe_control_info: spec_u32_le(block, 72),
            vbe_mode_info: spec_u32_le(block, 76),
            vbe_mode: spec_u16_le(block, 80),
            vbe_interface_seg: spec_u16_le(block, 82),
            vbe_interface_off: spec_u16_le(block, 84),
            vbe_interface_len: spec_u16_le(block, 86),
            framebuffer_table: FramebufferTable {
                addr: spec_u64_le(block, 88),
                pitch: spec_u32_le(block, 96),
                width: spec_u32_le(block, 100),
                height: spec_u32_le(block, 104),
                bpp: block[108],
                ty: block[109],
                color_info: ColorInfo {
                    byte0: block[110],
                    byte1: block[111],
                    byte2: block[112],
                    byte3: block[113],
                    byte4: block[114],
                    byte5: block[115],
                },
            },
        }
    }

    /// Reads the fields of the information block from the start of `block`;
    /// `None` where `block` is shorter than the information block.
    pub fn parse(block: &[u8]) -> (info: Option<MultibootInfo>)
        ensures
            block@.len() < INFO_SIZE ==> info.is_none(),
            block@.len() >= INFO_SIZE ==> info == Some(MultibootInfo::spec_parse(block@)),
    {
        if block.len() < INFO_SIZE {
            return None;
        }
        let boot_device = BootDevice {
            drive: block[12],
            partition1: block[13],
            partition2: block[14],
            partition3: block[15],
        };
        let symbols = Symbols {
            word0: read_u32_le(block, 28),
            word1: read_u32_le(block, 32),
            word2: read_u32_le(block, 36),
            word3: read_u32_le(block, 40),
        };
        let color_info = ColorInfo {
            byte0: block[110],
            byte1: block[111],
            byte2: block[112],
            byte3: block[113],
            byte4: block[114],
            byte5: block[115],
        };
        let framebuffer_table = FramebufferTable {
            addr: read_u64_le(block, 88),
            pitch: read_u32_le(block, 96),
            width: read_u32_le(block, 100),
            height: read_u32_le(block, 104),
            bpp: block[108],
            ty: block[109],
            color_info,
        };
        Some(
            MultibootInfo {
                flags: read_u32_le(block, 0),
                mem_lower: read_u32_le(block, 4),
                mem_upper: read_u32_le(block, 8),
                boot_device,
                cmdline: read_u32_le(block, 16),
                mods_count: read_u32_le(block, 20),
                mods_addr: read_u32_le(block, 24),
                symbols,
                mmap_length: read_u32_le(block, 44),
                mmap_addr: read_u32_le(block, 48),
                drives_length: read_u32_le(block, 52),
                drives_addr: read_u32_le(block, 56),
                config_table: read_u32_le(block, 60),
                boot_loader_name: read_u32_le(block, 64),
                apm_table: read_u32_le(block, 68),
                vbe_control_info: read_u32_le(block, 72),
                vbe_mode_info: read_u32_le(block, 76),
                vbe_mode: read_u16_le(block, 80),
                vbe_interface_seg: read_u16_le(block, 82),
                vbe_interface_off: read_u16_le(block, 84),
                vbe_interface_len: read_u16_le(block, 86),
                framebuffer_table,
            },
        )
    }

    /// The symbol table by the layout that the flags word announces. The two
    /// layouts exclude each other: a block that announces both, or neither,
    /// has no symbol table.
    pub open spec fn spec_symbols(self) -> Option<SymbolType> {
        let aout = self.flags & FLAG_AOUT_SYMBOLS != 0;
        let elf = self.flags & FLAG_ELF_SYMBOLS != 0;
        if elf && !aout {
            Some(SymbolType::Elf(self.symbols.spec_elf()))
        } else if aout && !elf {
            Some(SymbolType::AOut(self.symbols.spec_aout()))
        } else {
            None
        }
    }

    /// Decodes the symbol-table region by the flags word.
    pub fn symbols(&self) -> (symbols: Option<SymbolType>)
        ensures
            symbols == self.spec_symbols(),
    {
        let aout = self.flags & FLAG_AOUT_SYMBOLS != 0;
        let elf = self.flags & FLAG_ELF_SYMBOLS != 0;
        if elf && !aout {
            Some(SymbolType::Elf(self.symbols.elf()))
        } else if aout && !elf {
            Some(SymbolType::AOut(self.symbols.aout()))
        } else {
            None
        }
    }
}

} // verus!
