use kernel::memory::memory_parsing::{
    boot_outcome, classify, rust_parse_multiboot_mapper, write_status, BootOutcome, BootProtocol,
    PhysRead, MB1_BOOTLOADER_MAGIC, MB2_BOOTLOADER_MAGIC, MB2_MIN_INFO_SIZE,
};
use kernel::memory::multiboot1_data::{
    AOutSymbols, BootDevice, ColorInfo, ColorInfoPalette, ColorInfoRgb, ColorInfoType, ElfSymbols,
    FramebufferTable, MBModule, MemoryEntry, MemoryType, Module, MultibootInfo, SymbolType,
    Symbols, INFO_SIZE, MEMORY_ENTRY_SIZE, SIGNATURE_EAX,
};
use kernel::qemu::qemu_testing::{err, panic_code, stage, subsys, ExitSignal};
use std::cell::RefCell;

/// Memory that answers every read with the same view and notes what was
/// asked of it.
struct Memory {
    view: Option<&'static [u8]>,
    asked: RefCell<Vec<(u64, usize)>>,
}

impl Memory {
    fn holding(bytes: Vec<u8>) -> Memory {
        Memory { view: Some(Box::leak(bytes.into_boxed_slice())), asked: RefCell::new(Vec::new()) }
    }

    fn unreadable() -> Memory {
        Memory { view: None, asked: RefCell::new(Vec::new()) }
    }
}

impl PhysRead for Memory {
    fn paddr_to_slice(&self, paddr: u64, len: usize) -> Option<&'static [u8]> {
        self.asked.borrow_mut().push((paddr, len));
        self.view
    }
}

/// A block in which byte `i` holds `i + 1`.
fn counting_block(len: usize) -> Vec<u8> {
    let mut block = Vec::new();
    for i in 0..len {
        block.push((i + 1) as u8);
    }
    block
}

fn counting_info() -> MultibootInfo {
    MultibootInfo {
        flags: 0x0403_0201,
        mem_lower: 0x0807_0605,
        mem_upper: 0x0C0B_0A09,
        boot_device: BootDevice { drive: 13, partition1: 14, partition2: 15, partition3: 16 },
        cmdline: 0x1413_1211,
        mods_count: 0x1817_1615,
        mods_addr: 0x1C1B_1A19,
        symbols: Symbols {
            word0: 0x201F_1E1D,
            word1: 0x2423_2221,
            word2: 0x2827_2625,
            word3: 0x2C2B_2A29,
        },
        mmap_length: 0x302F_2E2D,
        mmap_addr: 0x3433_3231,
        drives_length: 0x3837_3635,
        drives_addr: 0x3C3B_3A39,
        config_table: 0x403F_3E3D,
        boot_loader_name: 0x4443_4241,
        apm_table: 0x4847_4645,
        vbe_control_info: 0x4C4B_4A49,
        vbe_mode_info: 0x504F_4E4D,
        vbe_mode: 0x5251,
        vbe_interface_seg: 0x5453,
        vbe_interface_off: 0x5655,
        vbe_interface_len: 0x5857,
        framebuffer_table: FramebufferTable {
            addr: 0x605F_5E5D_5C5B_5A59,
            pitch: 0x6463_6261,
            width: 0x6867_6665,
            height: 0x6C6B_6A69,
            bpp: 0x6D,
            ty: 0x6E,
            color_info: ColorInfo {
                byte0: 0x6F,
                byte1: 0x70,
                byte2: 0x71,
                byte3: 0x72,
                byte4: 0x73,
                byte5: 0x74,
            },
        },
    }
}

#[test]
fn multiboot1_magic_is_parsed_without_exit() {
    let mem = Memory::holding(counting_block(INFO_SIZE));
    let mut line = Vec::new();
    let outcome = rust_parse_multiboot_mapper(0x2BADB002, 0x0001_0000, &mem, &mut line);
    assert_eq!(outcome, BootOutcome::V1Parsed(Some(counting_info())));
    assert!(!matches!(outcome, BootOutcome::Fatal(_)));
    assert_eq!(
        line,
        b"boot loader is indeed activated :)kernel is using multiboot 1".to_vec()
    );
    assert_eq!(*mem.asked.borrow(), vec![(0x0001_0000u64, 116usize)]);
}

#[test]
fn multiboot2_magic_is_recognized_without_exit() {
    let mem = Memory::holding(counting_block(INFO_SIZE));
    let mut line = Vec::new();
    let outcome = rust_parse_multiboot_mapper(0x36D76289, 0x0001_0000, &mem, &mut line);
    assert_eq!(outcome, BootOutcome::V2Recognized);
    assert!(!matches!(outcome, BootOutcome::Fatal(_)));
    assert_eq!(
        line,
        b"boot loader is indeed activated :)kernel is using multiboot 2".to_vec()
    );
    assert!(mem.asked.borrow().is_empty());
}

#[test]
fn zero_magic_is_fatal() {
    let mem = Memory::holding(counting_block(INFO_SIZE));
    let mut line = Vec::new();
    let outcome = rust_parse_multiboot_mapper(0x0000_0000, 0x0001_0000, &mem, &mut line);
    assert_eq!(outcome, BootOutcome::Fatal(ExitSignal { port: 0xF4, code: 0x05020501 }));
    assert_eq!(line, b"multi boot has not been idenified".to_vec());
    assert!(mem.asked.borrow().is_empty());
}

#[test]
fn all_ones_magic_is_fatal() {
    let mem = Memory::unreadable();
    let mut line = Vec::new();
    let outcome = rust_parse_multiboot_mapper(0xFFFF_FFFF, 0, &mem, &mut line);
    match outcome {
        BootOutcome::Fatal(signal) => {
            assert_eq!(signal.port, 0xF4);
            assert_eq!((signal.code >> 24) as u8, subsys::MEMORY);
            assert_eq!((signal.code >> 16) as u8, stage::INIT);
            assert_eq!((signal.code >> 8) as u8, err::DOUBLE_FAULT);
            assert_eq!(signal.code as u8, 0x01);
            assert_eq!(
                signal.code,
                panic_code(subsys::MEMORY, stage::INIT, err::DOUBLE_FAULT, 0x01)
            );
        }
        _ => panic!("an unknown magic value must be fatal"),
    }
    assert!(mem.asked.borrow().is_empty());
}

#[test]
fn magic_next_to_a_known_one_is_fatal() {
    let fatal = BootOutcome::Fatal(ExitSignal { port: 0xF4, code: 0x05020501 });
    for magic in [0x2BADB001u32, 0x2BADB003, 0x36D76288, 0x36D7628A, 0x02B0AD2B, 1] {
        let mem = Memory::holding(counting_block(INFO_SIZE));
        let mut line = Vec::new();
        assert_eq!(rust_parse_multiboot_mapper(magic, 0x1000, &mem, &mut line), fatal);
        assert_eq!(line, b"multi boot has not been idenified".to_vec());
    }
}

#[test]
fn unreadable_block_is_still_multiboot1() {
    let mem = Memory::unreadable();
    let mut line = Vec::new();
    let outcome = rust_parse_multiboot_mapper(MB1_BOOTLOADER_MAGIC, 0x9000, &mem, &mut line);
    assert_eq!(outcome, BootOutcome::V1Parsed(None));
    assert_eq!(*mem.asked.borrow(), vec![(0x9000u64, INFO_SIZE)]);
}

#[test]
fn short_view_is_not_parsed() {
    let mem = Memory::holding(counting_block(INFO_SIZE - 1));
    let mut line = Vec::new();
    let outcome = rust_parse_multiboot_mapper(MB1_BOOTLOADER_MAGIC, 0x9000, &mem, &mut line);
    assert_eq!(outcome, BootOutcome::V1Parsed(None));
}

#[test]
fn highest_address_is_widened_unchanged() {
    let mem = Memory::unreadable();
    let mut line = Vec::new();
    rust_parse_multiboot_mapper(MB1_BOOTLOADER_MAGIC, 0xFFFF_FFFF, &mem, &mut line);
    assert_eq!(*mem.asked.borrow(), vec![(0xFFFF_FFFFu64, 116usize)]);
}

#[test]
fn status_goes_behind_what_is_waiting() {
    let mem = Memory::unreadable();
    let mut line = b">> ".to_vec();
    rust_parse_multiboot_mapper(MB2_BOOTLOADER_MAGIC, 0, &mem, &mut line);
    assert_eq!(
        line,
        b">> boot loader is indeed activated :)kernel is using multiboot 2".to_vec()
    );
}

#[test]
fn write_status_names_the_loader() {
    let mut line = Vec::new();
    write_status(MB1_BOOTLOADER_MAGIC, &mut line);
    assert_eq!(
        line,
        b"boot loader is indeed activated :)kernel is using multiboot 1".to_vec()
    );
    let mut line = Vec::new();
    write_status(MB2_BOOTLOADER_MAGIC, &mut line);
    assert_eq!(
        line,
        b"boot loader is indeed activated :)kernel is using multiboot 2".to_vec()
    );
    let mut line = Vec::new();
    write_status(7, &mut line);
    assert_eq!(line, b"multi boot has not been idenified".to_vec());
}

#[test]
fn magic_values_are_the_two_sentinels() {
    assert_eq!(MB1_BOOTLOADER_MAGIC, 0x2BADB002);
    assert_eq!(MB2_BOOTLOADER_MAGIC, 0x36D76289);
    assert_eq!(SIGNATURE_EAX, 0x2BADB002);
    assert_eq!(MB2_MIN_INFO_SIZE, 16);
    assert_eq!(classify(0x2BADB002), Some(BootProtocol::Multiboot1));
    assert_eq!(classify(0x36D76289), Some(BootProtocol::Multiboot2));
    assert_eq!(classify(0), None);
    assert_eq!(classify(0xFFFF_FFFF), None);
    assert_eq!(classify(0x2BADB003), None);
}

#[test]
fn outcome_follows_magic_and_view() {
    let block = counting_block(INFO_SIZE + 8);
    assert_eq!(
        boot_outcome(MB1_BOOTLOADER_MAGIC, Some(&block)),
        BootOutcome::V1Parsed(Some(counting_info()))
    );
    assert_eq!(
        boot_outcome(MB1_BOOTLOADER_MAGIC, Some(&block[..INFO_SIZE - 1])),
        BootOutcome::V1Parsed(None)
    );
    assert_eq!(boot_outcome(MB1_BOOTLOADER_MAGIC, None), BootOutcome::V1Parsed(None));
    assert_eq!(boot_outcome(MB2_BOOTLOADER_MAGIC, Some(&block)), BootOutcome::V2Recognized);
    assert_eq!(boot_outcome(MB2_BOOTLOADER_MAGIC, None), BootOutcome::V2Recognized);
    assert_eq!(
        boot_outcome(0xDEAD_BEEF, Some(&block)),
        BootOutcome::Fatal(ExitSignal { port: 0xF4, code: 0x05020501 })
    );
    assert_eq!(
        boot_outcome(0xDEAD_BEEF, None),
        BootOutcome::Fatal(ExitSignal { port: 0xF4, code: 0x05020501 })
    );
}

#[test]
fn block_is_parsed_field_by_field() {
    assert_eq!(INFO_SIZE, 116);
    assert_eq!(MultibootInfo::parse(&counting_block(116)), Some(counting_info()));
    assert_eq!(MultibootInfo::parse(&counting_block(200)), Some(counting_info()));
}

#[test]
fn block_that_is_too_short_is_not_parsed() {
    assert_eq!(MultibootInfo::parse(&[]), None);
    assert_eq!(MultibootInfo::parse(&counting_block(4)), None);
    assert_eq!(MultibootInfo::parse(&counting_block(115)), None);
}

#[test]
fn memory_fields_are_little_endian() {
    let mut block = vec![0u8; INFO_SIZE];
    block[0] = 0x41;
    block[4..8].copy_from_slice(&640u32.to_le_bytes());
    block[8..12].copy_from_slice(&0x0001_FC00u32.to_le_bytes());
    block[44..48].copy_from_slice(&144u32.to_le_bytes());
    block[48..52].copy_from_slice(&0x0000_9000u32.to_le_bytes());
    block[88..96].copy_from_slice(&0x0000_0000_FD00_0000u64.to_le_bytes());
    let info = MultibootInfo::parse(&block).unwrap();
    assert_eq!(info.flags, 0x41);
    assert_eq!(info.mem_lower, 640);
    assert_eq!(info.mem_upper, 0x0001_FC00);
    assert_eq!(info.mmap_length, 144);
    assert_eq!(info.mmap_addr, 0x9000);
    assert_eq!(info.framebuffer_table.addr, 0xFD00_0000);
    assert_eq!(info.boot_device, BootDevice { drive: 0, partition1: 0, partition2: 0, partition3: 0 });
}

#[test]
fn block_of_all_ones_is_parsed() {
    let info = MultibootInfo::parse(&[0xFFu8; 116]).unwrap();
    assert_eq!(info.flags, u32::MAX);
    assert_eq!(info.vbe_mode, u16::MAX);
    assert_eq!(info.framebuffer_table.addr, u64::MAX);
    assert_eq!(info.framebuffer_table.bpp, 0xFF);
    assert_eq!(info.symbols(), None);
    assert_eq!(info.framebuffer_table.color_info(), None);
}

#[test]
fn symbols_are_read_by_the_flags_word() {
    let mut info = counting_info();
    let elf = ElfSymbols { num: 0x201F_1E1D, size: 0x2423_2221, addr: 0x2827_2625, shndx: 0x2C2B_2A29 };
    let aout = AOutSymbols {
        tabsize: 0x201F_1E1D,
        strsize: 0x2423_2221,
        addr: 0x2827_2625,
        reserved: 0x2C2B_2A29,
    };
    info.flags = 1 << 5;
    assert_eq!(info.symbols(), Some(SymbolType::Elf(elf)));
    info.flags = (1 << 5) | 0x0000_1FCF;
    assert_eq!(info.symbols(), Some(SymbolType::Elf(elf)));
    info.flags = 1 << 4;
    assert_eq!(info.symbols(), Some(SymbolType::AOut(aout)));
    info.flags = (1 << 4) | (1 << 5);
    assert_eq!(info.symbols(), None);
    info.flags = 0;
    assert_eq!(info.symbols(), None);
    info.flags = !((1 << 4) | (1 << 5));
    assert_eq!(info.symbols(), None);
    assert_eq!(info.symbols.elf(), elf);
    assert_eq!(info.symbols.aout(), aout);
}

#[test]
fn color_info_is_read_by_the_framebuffer_type() {
    let mut table = counting_info().framebuffer_table;
    table.ty = 0;
    assert_eq!(
        table.color_info(),
        Some(ColorInfoType::Palette(ColorInfoPalette {
            palette_addr: 0x7271_706F,
            palette_num_colors: 0x7473,
        }))
    );
    table.ty = 1;
    assert_eq!(
        table.color_info(),
        Some(ColorInfoType::Rgb(ColorInfoRgb {
            red_field_position: 0x6F,
            red_mask_size: 0x70,
            green_field_position: 0x71,
            green_mask_size: 0x72,
            blue_field_position: 0x73,
            blue_mask_size: 0x74,
        }))
    );
    table.ty = 2;
    assert_eq!(table.color_info(), Some(ColorInfoType::Text));
    table.ty = 3;
    assert_eq!(table.color_info(), None);
    table.ty = 0xFF;
    assert_eq!(table.color_info(), None);
}

#[test]
fn palette_of_all_ones_does_not_overflow() {
    let info = ColorInfo { byte0: 0xFF, byte1: 0xFF, byte2: 0xFF, byte3: 0xFF, byte4: 0xFF, byte5: 0xFF };
    assert_eq!(
        info.palette(),
        ColorInfoPalette { palette_addr: u32::MAX, palette_num_colors: u16::MAX }
    );
    assert_eq!(info.rgb().blue_mask_size, 0xFF);
}

#[test]
fn memory_type_codes() {
    assert_eq!(MemoryType::Available.code(), 1);
    assert_eq!(MemoryType::Reserved.code(), 2);
    assert_eq!(MemoryType::ACPI.code(), 3);
    assert_eq!(MemoryType::NVS.code(), 4);
    assert_eq!(MemoryType::Defect.code(), 5);
    assert_eq!(MemoryType::from_code(1), Some(MemoryType::Available));
    assert_eq!(MemoryType::from_code(2), Some(MemoryType::Reserved));
    assert_eq!(MemoryType::from_code(3), Some(MemoryType::ACPI));
    assert_eq!(MemoryType::from_code(4), Some(MemoryType::NVS));
    assert_eq!(MemoryType::from_code(5), Some(MemoryType::Defect));
    assert_eq!(MemoryType::from_code(0), None);
    assert_eq!(MemoryType::from_code(6), None);
    assert_eq!(MemoryType::from_code(u32::MAX), None);
}

#[test]
fn memory_entry_is_packed() {
    assert_eq!(MEMORY_ENTRY_SIZE, 24);
    let mut block = Vec::new();
    block.extend_from_slice(&20u32.to_le_bytes());
    block.extend_from_slice(&0x0000_0000_0010_0000u64.to_le_bytes());
    block.extend_from_slice(&0x0000_0000_7FEE_0000u64.to_le_bytes());
    block.extend_from_slice(&1u32.to_le_bytes());
    let entry = MemoryEntry::parse(&block).unwrap();
    assert_eq!(
        entry,
        MemoryEntry { size: 20, base_addr: 0x10_0000, length: 0x7FEE_0000, mtype: 1 }
    );
    assert_eq!(entry.memory_type(), Some(MemoryType::Available));
    assert_eq!(MemoryEntry::parse(&block[..23]), None);
    assert_eq!(MemoryEntry::parse(&[]), None);
    block.push(0xEE);
    assert_eq!(MemoryEntry::parse(&block), Some(entry));
}

#[test]
fn memory_entry_of_counting_bytes() {
    let entry = MemoryEntry::parse(&counting_block(24)).unwrap();
    assert_eq!(entry.size, 0x0403_0201);
    assert_eq!(entry.base_addr, 0x0C0B_0A09_0807_0605);
    assert_eq!(entry.length, 0x1413_1211_100F_0E0D);
    assert_eq!(entry.mtype, 0x1817_1615);
    assert_eq!(entry.memory_type(), None);
    assert_eq!(MemoryEntry::parse(&[0xFF; 24]).unwrap().length, u64::MAX);
}

#[test]
fn defaults() {
    assert_eq!(
        BootDevice::default(),
        BootDevice { drive: 0xff, partition1: 0xff, partition2: 0xff, partition3: 0xff }
    );
    assert_eq!(
        MemoryEntry::default(),
        MemoryEntry { size: 20, base_addr: 0, length: 0, mtype: 2 }
    );
    assert_eq!(MemoryEntry::default().memory_type(), Some(MemoryType::Reserved));
    assert_eq!(MBModule::default(), MBModule { start: 0, end: 0, string: 0, reserved: 0 });
    assert_eq!(Symbols::default().elf(), ElfSymbols::default());
    assert_eq!(ElfSymbols::default(), ElfSymbols { num: 0, size: 0, addr: 0, shndx: 0 });
    assert_eq!(
        AOutSymbols::default(),
        AOutSymbols { tabsize: 0, strsize: 0, addr: 0, reserved: 0 }
    );
    assert_eq!(
        ColorInfo::default().palette(),
        ColorInfoPalette { palette_addr: 0, palette_num_colors: 0 }
    );
    let table = FramebufferTable::default();
    assert_eq!(table.addr, 0);
    assert_eq!(table.ty, 0);
    assert_eq!(
        table.color_info(),
        Some(ColorInfoType::Palette(ColorInfoPalette { palette_addr: 0, palette_num_colors: 0 }))
    );
    let info = MultibootInfo::default();
    assert_eq!(info.flags, 0);
    assert_eq!(info.boot_device, BootDevice::default());
    assert_eq!(info.symbols, Symbols::default());
    assert_eq!(info.framebuffer_table, FramebufferTable::default());
    assert_eq!(info.mmap_addr, 0);
    assert_eq!(info.symbols(), None);
    let mut zero_block = vec![0u8; 116];
    zero_block[12] = 0xff;
    zero_block[13] = 0xff;
    zero_block[14] = 0xff;
    zero_block[15] = 0xff;
    assert_eq!(MultibootInfo::parse(&zero_block), Some(info));
}

#[test]
fn module_keeps_what_it_was_given() {
    let named = Module::new(0x10_0000, 0x10_8000, Some("initrd"));
    assert_eq!(named.start, 0x10_0000);
    assert_eq!(named.end, 0x10_8000);
    assert_eq!(named.string, Some("initrd"));
    let unnamed = Module::new(u64::MAX, 0, None);
    assert_eq!(unnamed.start, u64::MAX);
    assert_eq!(unnamed.end, 0);
    assert_eq!(unnamed.string, None);
}
