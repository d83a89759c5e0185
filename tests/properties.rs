use emulator_6502::memory::Memory;
use emulator_6502::op::is_supported;
use emulator_6502::processor::Processor;
use emulator_6502::status::Status;

fn program(origin: u16, bytes: &[u8]) -> Memory {
    let mut mem = Memory::new();
    for (i, b) in bytes.iter().enumerate() {
        mem.write(origin.wrapping_add(i as u16), *b);
    }
    mem
}

#[test]
fn cycles_base_plus_indirect_y_penalty() {
    // LDA ($10),Y with the pointer at 0x12F0 and Y = 0x20 crosses into 0x13.
    let mut mem = program(0x8000, &[0xB1, 0x10]);
    mem.write(0x0010, 0xF0);
    mem.write(0x0011, 0x12);
    mem.write(0x1310, 0x99);
    let mut cpu = Processor::new();
    cpu.y = 0x20;
    cpu.step(&mut mem);
    assert_eq!(cpu.a, 0x99);
    assert_eq!(cpu.cycles, 6);
}

#[test]
fn rmw_absolute_x_never_pays_penalty() {
    let mut mem = program(0x8000, &[0xFE, 0xFF, 0x12]);
    mem.write(0x1300, 0x41);
    let mut cpu = Processor::new();
    cpu.x = 0x01;
    cpu.step(&mut mem);
    assert_eq!(mem.read(0x1300), 0x42);
    assert_eq!(cpu.cycles, 7);
}

#[test]
fn status_byte_always_has_u() {
    let cpu = Processor::new();
    assert_eq!(cpu.p(), 0x20);
    let nes = Processor::nes();
    assert_eq!(nes.p(), 0x24);
    let all = Status { n: true, v: true, d: true, i: true, z: true, c: true };
    assert_eq!(all.byte(), 0xEF);
}

#[test]
fn plp_drops_b_and_keeps_u() {
    // PLP of 0x10 installs no flags; the status still reads with U set.
    let mut mem = program(0x8000, &[0x28]);
    mem.write(0x0100, 0x10);
    let mut cpu = Processor::new();
    cpu.s = 0xFF;
    cpu.step(&mut mem);
    assert_eq!(cpu.p(), 0x20);
    assert_eq!(cpu.s, 0x00);
}

#[test]
fn inc_to_zero_sets_z_and_clears_n() {
    let mut mem = program(0x8000, &[0xE6, 0x40]);
    mem.write(0x0040, 0xFF);
    let mut cpu = Processor::new();
    cpu.status.n = true;
    cpu.step(&mut mem);
    assert_eq!(mem.read(0x0040), 0x00);
    assert!(cpu.status.z);
    assert!(!cpu.status.n);
    assert_eq!(cpu.cycles, 5);
}

#[test]
fn dex_below_zero_sets_n() {
    let mut mem = program(0x8000, &[0xCA]);
    let mut cpu = Processor::new();
    cpu.step(&mut mem);
    assert_eq!(cpu.x, 0xFF);
    assert!(cpu.status.n);
    assert!(!cpu.status.z);
}

fn run_one(opcode: u8, a: u8, m: u8, c: bool) -> Processor {
    let mut mem = program(0x8000, &[opcode, m]);
    let mut cpu = Processor::new();
    cpu.a = a;
    cpu.status.c = c;
    cpu.step(&mut mem);
    cpu
}

#[test]
fn sbc_equals_adc_of_complement() {
    for &(a, m, c) in &[(0x50u8, 0xF0u8, false), (0x50, 0xB0, true), (0x00, 0x01, true), (0x80, 0x01, true), (0xFF, 0xFF, false)] {
        let s = run_one(0xE9, a, m, c);
        let d = run_one(0x69, a, m ^ 0xFF, c);
        assert_eq!(s.a, d.a);
        assert_eq!(s.status, d.status);
    }
}

#[test]
fn sbc_exact_values() {
    // 0x50 - 0xB0 with carry set: 0xA0, borrow, signed overflow.
    let s = run_one(0xE9, 0x50, 0xB0, true);
    assert_eq!(s.a, 0xA0);
    assert!(!s.status.c);
    assert!(s.status.v);
    assert!(s.status.n);
    // 0x05 - 0x03 with carry set: 0x02, no borrow.
    let t = run_one(0xE9, 0x05, 0x03, true);
    assert_eq!(t.a, 0x02);
    assert!(t.status.c);
    assert!(!t.status.v);
    // The undocumented 0xEB behaves as SBC immediate.
    let u = run_one(0xEB, 0x05, 0x03, true);
    assert_eq!(u.a, 0x02);
    assert_eq!(u.cycles, 2);
}

#[test]
fn adc_carry_out() {
    let r = run_one(0x69, 0xFF, 0x01, false);
    assert_eq!(r.a, 0x00);
    assert!(r.status.c);
    assert!(r.status.z);
    assert!(!r.status.v);
}

#[test]
fn stack_round_trip_lifo() {
    // LDA #1; PHA; LDA #2; PHA; LDA #3; PHA; PLA; TAX; PLA; TAY; PLA
    let mut mem = program(
        0x8000,
        &[0xA9, 0x01, 0x48, 0xA9, 0x02, 0x48, 0xA9, 0x03, 0x48, 0x68, 0xAA, 0x68, 0xA8, 0x68],
    );
    let mut cpu = Processor::new();
    for _ in 0..6 {
        cpu.step(&mut mem);
    }
    assert_eq!(cpu.s, 0xFC);
    assert_eq!(mem.read(0x01FF), 0x01);
    assert_eq!(mem.read(0x01FE), 0x02);
    assert_eq!(mem.read(0x01FD), 0x03);
    for _ in 0..5 {
        cpu.step(&mut mem);
    }
    assert_eq!(cpu.x, 0x03);
    assert_eq!(cpu.y, 0x02);
    assert_eq!(cpu.a, 0x01);
    assert_eq!(cpu.s, 0xFF);
}

#[test]
fn stack_wraps_within_page() {
    let mut mem = program(0x8000, &[0x48, 0x68]);
    let mut cpu = Processor::new();
    cpu.s = 0x00;
    cpu.a = 0x5A;
    cpu.step(&mut mem);
    assert_eq!(mem.read(0x0100), 0x5A);
    assert_eq!(cpu.s, 0xFF);
    cpu.a = 0;
    cpu.step(&mut mem);
    assert_eq!(cpu.a, 0x5A);
    assert_eq!(cpu.s, 0x00);
}

#[test]
fn php_plp_round_trip() {
    let mut mem = program(0x8000, &[0x08, 0x28]);
    let mut cpu = Processor::new();
    cpu.status = Status { n: true, v: false, d: true, i: false, z: true, c: true };
    let before = cpu.status;
    cpu.step(&mut mem);
    assert_eq!(mem.read(0x01FF), 0x80 | 0x20 | 0x10 | 0x08 | 0x02 | 0x01);
    cpu.status = Status::from_byte(0);
    cpu.step(&mut mem);
    assert_eq!(cpu.status, before);
    assert_eq!(cpu.s, 0xFF);
}

#[test]
fn jsr_rts_round_trip() {
    // 8000: JSR 9000; 8003: NOP. 9000: LDX #7; RTS
    let mut mem = program(0x8000, &[0x20, 0x00, 0x90, 0xEA]);
    mem.write(0x9000, 0xA2);
    mem.write(0x9001, 0x07);
    mem.write(0x9002, 0x60);
    let mut cpu = Processor::new();
    cpu.step(&mut mem);
    assert_eq!(cpu.pc, 0x9000);
    assert_eq!(cpu.s, 0xFD);
    assert_eq!(mem.read(0x01FF), 0x80);
    assert_eq!(mem.read(0x01FE), 0x02);
    assert_eq!(cpu.cycles, 6);
    cpu.step(&mut mem);
    cpu.step(&mut mem);
    assert_eq!(cpu.pc, 0x8003);
    assert_eq!(cpu.s, 0xFF);
    assert_eq!(cpu.cycles, 6);
}

#[test]
fn brk_rti_round_trip() {
    let mut mem = program(0x8000, &[0x00, 0xEA]);
    let mut cpu = Processor::new();
    cpu.status.c = true;
    cpu.step(&mut mem);
    assert_eq!(cpu.pc, 0x8002);
    assert!(cpu.status.i);
    assert_eq!(mem.read(0x01FF), 0x80);
    assert_eq!(mem.read(0x01FE), 0x02);
    assert_eq!(mem.read(0x01FD), 0x31);
    assert_eq!(cpu.s, 0xFC);
    mem.write(0x8002, 0x40);
    cpu.step(&mut mem);
    assert_eq!(cpu.pc, 0x8002);
    assert!(!cpu.status.i);
    assert!(cpu.status.c);
    assert_eq!(cpu.s, 0xFF);
}

#[test]
fn jmp_indirect_without_wrap() {
    let mut mem = program(0x8000, &[0x6C, 0x00, 0x30]);
    mem.write(0x3000, 0x34);
    mem.write(0x3001, 0x12);
    let mut cpu = Processor::new();
    cpu.step(&mut mem);
    assert_eq!(cpu.pc, 0x1234);
}

#[test]
fn zero_page_indirect_wraps() {
    // LDA ($FF,X) with X = 0: pointer low at 0x00FF, high at 0x0000.
    let mut mem = program(0x8000, &[0xA1, 0xFF]);
    mem.write(0x00FF, 0x00);
    mem.write(0x0000, 0x04);
    mem.write(0x0400, 0x66);
    let mut cpu = Processor::new();
    cpu.step(&mut mem);
    assert_eq!(cpu.a, 0x66);
    assert_eq!(cpu.cycles, 6);
}

#[test]
fn shifts_and_rotates() {
    let r = run_one(0x0A, 0x81, 0, false); // ASL A
    assert_eq!(r.a, 0x02);
    assert!(r.status.c);
    let r = run_one(0x4A, 0x81, 0, false); // LSR A
    assert_eq!(r.a, 0x40);
    assert!(r.status.c);
    let r = run_one(0x2A, 0x80, 0, true); // ROL A
    assert_eq!(r.a, 0x01);
    assert!(r.status.c);
    let r = run_one(0x6A, 0x01, 0, true); // ROR A
    assert_eq!(r.a, 0x80);
    assert!(r.status.c);
    assert!(r.status.n);
}

#[test]
fn ror_memory_uses_the_operand() {
    let mut mem = program(0x8000, &[0x66, 0x10]);
    mem.write(0x0010, 0x02);
    let mut cpu = Processor::new();
    cpu.a = 0xFF;
    cpu.step(&mut mem);
    assert_eq!(mem.read(0x0010), 0x01);
    assert!(!cpu.status.c);
}

#[test]
fn compare_flags() {
    let r = run_one(0xC9, 0x10, 0x20, false);
    assert!(!r.status.c);
    assert!(!r.status.z);
    assert!(r.status.n);
    let r = run_one(0xC9, 0x20, 0x20, false);
    assert!(r.status.c);
    assert!(r.status.z);
}

#[test]
fn undocumented_opcodes() {
    // LAX zp
    let mut mem = program(0x8000, &[0xA7, 0x10, 0x87, 0x11, 0xC7, 0x12, 0xE7, 0x13]);
    mem.write(0x0010, 0x8F);
    mem.write(0x0012, 0x8F);
    mem.write(0x0013, 0x0F);
    let mut cpu = Processor::new();
    cpu.step(&mut mem);
    assert_eq!((cpu.a, cpu.x), (0x8F, 0x8F));
    assert!(cpu.status.n);
    // SAX zp
    cpu.x = 0x0F;
    cpu.step(&mut mem);
    assert_eq!(mem.read(0x0011), 0x0F);
    // DCP zp: memory 0x8F -> 0x8E, compare A (0x8F) with it.
    cpu.step(&mut mem);
    assert_eq!(mem.read(0x0012), 0x8E);
    assert!(cpu.status.c);
    assert!(!cpu.status.z);
    // ISC zp: memory 0x0F -> 0x10, A = 0x8F - 0x10 = 0x7F with overflow.
    cpu.step(&mut mem);
    assert_eq!(mem.read(0x0013), 0x10);
    assert_eq!(cpu.a, 0x7F);
    assert!(cpu.status.v);
}

#[test]
fn undocumented_shift_combinations() {
    let mut mem = program(0x8000, &[0x07, 0x10, 0x27, 0x11, 0x47, 0x12, 0x67, 0x13]);
    mem.write(0x0010, 0x81);
    mem.write(0x0011, 0x81);
    mem.write(0x0012, 0x03);
    mem.write(0x0013, 0x02);
    let mut cpu = Processor::new();
    cpu.a = 0x10;
    cpu.step(&mut mem); // SLO: mem 0x02, C = 1, A = 0x12
    assert_eq!(mem.read(0x0010), 0x02);
    assert_eq!(cpu.a, 0x12);
    assert!(cpu.status.c);
    cpu.step(&mut mem); // RLA: mem 0x03, C = 1, A = 0x12 & 0x03
    assert_eq!(mem.read(0x0011), 0x03);
    assert_eq!(cpu.a, 0x02);
    cpu.step(&mut mem); // SRE: mem 0x01, C = 1, A = 0x02 ^ 0x01
    assert_eq!(mem.read(0x0012), 0x01);
    assert_eq!(cpu.a, 0x03);
    cpu.step(&mut mem); // RRA: mem 0x81, C = 0, A = 0x03 + 0x81
    assert_eq!(mem.read(0x0013), 0x81);
    assert_eq!(cpu.a, 0x84);
    assert!(!cpu.status.c);
}

#[test]
fn nop_variants_advance_pc() {
    let mut mem = program(0x8000, &[0x04, 0x10, 0x0C, 0x00, 0x20, 0x1A, 0x80, 0x01, 0x1C, 0xFF, 0x12]);
    let mut cpu = Processor::new();
    cpu.x = 1;
    cpu.step(&mut mem);
    assert_eq!((cpu.pc, cpu.cycles), (0x8002, 3));
    cpu.step(&mut mem);
    assert_eq!((cpu.pc, cpu.cycles), (0x8005, 4));
    cpu.step(&mut mem);
    assert_eq!((cpu.pc, cpu.cycles), (0x8006, 2));
    cpu.step(&mut mem);
    assert_eq!((cpu.pc, cpu.cycles), (0x8008, 2));
    cpu.step(&mut mem);
    assert_eq!((cpu.pc, cpu.cycles), (0x800B, 5));
}

#[test]
fn unknown_opcodes_are_not_supported() {
    assert!(!is_supported(0x02));
    assert!(!is_supported(0x9E));
    assert!(is_supported(0xEB));
    assert!(is_supported(0x2E));
    assert!(is_supported(0x3E));
}
