use emulator_6502::memory::Memory;
use emulator_6502::nestest::{parse_nestest_line, NestestLine};
use emulator_6502::ppu::ClockPPU;
use emulator_6502::{load_nes, load_rom, load_rom_16kb, nes_image_supported};

#[test]
fn memory_reads_and_writes() {
    let mut mem = Memory::new();
    assert_eq!(mem.read(0x1234), 0);
    mem.write(0x1234, 0xAB);
    assert_eq!(mem.read(0x1234), 0xAB);
    assert_eq!(mem.read_i8(0x1234), -85);
    mem.write(0x1235, 0x7F);
    assert_eq!(mem.read_i8(0x1235), 127);
    assert_eq!(mem.read_u16(0x1234), 0x7FAB);
}

#[test]
fn memory_word_wraps_at_top() {
    let mut mem = Memory::new();
    mem.write(0xFFFF, 0x34);
    mem.write(0x0000, 0x12);
    assert_eq!(mem.read_u16(0xFFFF), 0x1234);
}

#[test]
fn memory_page_dump() {
    let mut mem = Memory::new();
    mem.write(0x0200, 1);
    mem.write(0x02FF, 2);
    mem.write(0x0300, 3);
    let page = mem.page_dump(0x02);
    assert_eq!(page.len(), 256);
    assert_eq!(page[0], 1);
    assert_eq!(page[255], 2);
}

#[test]
fn raw_loader_writes_from_origin() {
    let mut mem = Memory::new();
    load_rom(&mut mem, &[0xA9, 0x42, 0x00]);
    assert_eq!(mem.read(0x8000), 0xA9);
    assert_eq!(mem.read(0x8001), 0x42);
    assert_eq!(mem.read(0x8003), 0x00);
}

#[test]
fn raw_loader_wraps_past_top() {
    let mut mem = Memory::new();
    let rom: Vec<u8> = (0..0x8002u32).map(|i| (i % 251) as u8 + 1).collect();
    load_rom(&mut mem, &rom);
    assert_eq!(mem.read(0xFFFF), rom[0x7FFF]);
    assert_eq!(mem.read(0x0000), rom[0x8000]);
    assert_eq!(mem.read(0x0001), rom[0x8001]);
}

#[test]
fn mirroring_loader_repeats_image() {
    let mut mem = Memory::new();
    let rom: Vec<u8> = (0..0x4000u32).map(|i| (i % 253) as u8).collect();
    load_rom_16kb(&mut mem, &rom);
    assert_eq!(mem.read(0x8000), rom[0]);
    assert_eq!(mem.read(0xC000), rom[0]);
    assert_eq!(mem.read(0xC123), rom[0x123]);
    assert_eq!(mem.read(0xFFFF), rom[0x3FFF]);
}

fn ines(banks: u8) -> Vec<u8> {
    let mut rom = vec![0x4E, 0x45, 0x53, 0x1A, banks, 0, 0, 0, 0, 0, 0, 0, 0, 0, 0, 0];
    for i in 0..(banks as usize * 0x4000) {
        rom.push((i / 0x100) as u8 ^ (i as u8));
    }
    rom
}

#[test]
fn ines_one_bank_is_mirrored() {
    let rom = ines(1);
    assert!(nes_image_supported(&rom));
    let mut mem = Memory::new();
    load_nes(&mut mem, &rom);
    assert_eq!(mem.read(0x8000), rom[16]);
    assert_eq!(mem.read(0xC000), rom[16]);
    assert_eq!(mem.read(0xFFFC), rom[16 + 0x3FFC]);
    assert_eq!(mem.read(0x7FFF), 0);
}

#[test]
fn ines_two_banks_fill_linearly() {
    let rom = ines(2);
    assert!(nes_image_supported(&rom));
    let mut mem = Memory::new();
    load_nes(&mut mem, &rom);
    assert_eq!(mem.read(0x8000), rom[16]);
    assert_eq!(mem.read(0xC000), rom[16 + 0x4000]);
    assert_eq!(mem.read(0xFFFF), rom[16 + 0x7FFF]);
}

#[test]
fn ines_other_sizes_rejected() {
    assert!(!nes_image_supported(&ines(3)));
    assert!(!nes_image_supported(&ines(0)));
    let mut short = ines(1);
    short.truncate(100);
    assert!(!nes_image_supported(&short));
    assert!(!nes_image_supported(&[0x4E, 0x45]));
}

#[test]
fn video_clock_three_dots_per_cycle() {
    let mut ppu = ClockPPU::new();
    assert_eq!(ppu.cyc(), 0);
    ppu.step_cpu(7);
    assert_eq!(ppu.cyc(), 21);
    assert_eq!(ppu.scanline(), 0);
    ppu.step_cpu(107);
    assert_eq!(ppu.cyc(), 1);
    assert_eq!(ppu.scanline(), 1);
    assert_eq!(ppu.cross_scanline(), 1);
}

#[test]
fn video_clock_cross_scanline_looks_ahead() {
    let mut ppu = ClockPPU::new();
    ppu.step_cpu(113);
    assert_eq!(ppu.cyc(), 339);
    assert_eq!(ppu.scanline(), 0);
    assert_eq!(ppu.cross_scanline(), 1);
}

#[test]
fn trace_line_is_parsed() {
    let line = "C000  4C F5 C5  JMP $C5F5                       A:00 X:00 Y:00 P:24 SP:FD PPU:  0, 21 CYC:7";
    assert_eq!(
        parse_nestest_line(line),
        Some(NestestLine { pc: 0xC000, a: 0, x: 0, y: 0, p: 0x24, sp: 0xFD, cyc: 7 })
    );
}

#[test]
fn trace_line_with_lowercase_and_leading_space() {
    let line = "  c5f5  A2 00     LDX #$00   A:1f X:ab Y:0C P:a5 SP:fb CYC:  330";
    assert_eq!(
        parse_nestest_line(line),
        Some(NestestLine { pc: 0xC5F5, a: 0x1F, x: 0xAB, y: 0x0C, p: 0xA5, sp: 0xFB, cyc: 330 })
    );
}

#[test]
fn trace_line_missing_fields_rejected() {
    assert_eq!(parse_nestest_line("C000  4C F5 C5 A:00 X:00 Y:00 P:24 CYC:7"), None);
    assert_eq!(parse_nestest_line("C000  4C A:00 X:00 Y:00 P:24 SP:FD"), None);
    assert_eq!(parse_nestest_line("C000  4C A:00 X:00 Y:00 P:24 SP:FD CYC:"), None);
    assert_eq!(parse_nestest_line("C00"), None);
    assert_eq!(parse_nestest_line("G000  4C A:00 X:00 Y:00 P:24 SP:FD CYC:7"), None);
    assert_eq!(parse_nestest_line("C000  4C A:100 X:00 Y:00 P:24 SP:FD CYC:7"), None);
}
