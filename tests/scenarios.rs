use emulator_6502::memory::Memory;
use emulator_6502::processor::Processor;

fn program(origin: u16, bytes: &[u8]) -> Memory {
    let mut mem = Memory::new();
    for (i, b) in bytes.iter().enumerate() {
        mem.write(origin.wrapping_add(i as u16), *b);
    }
    mem
}

#[test]
fn lda_immediate() {
    let mut mem = program(0x8000, &[0xA9, 0x42]);
    let mut cpu = Processor::new();
    cpu.step(&mut mem);
    assert_eq!(cpu.a, 0x42);
    assert_eq!(cpu.pc, 0x8002);
    assert!(!cpu.status.z);
    assert!(!cpu.status.n);
    assert_eq!(cpu.cycles, 2);
}

#[test]
fn lda_immediate_zero_sets_z() {
    let mut mem = program(0x8000, &[0xA9, 0x00]);
    let mut cpu = Processor::new();
    cpu.step(&mut mem);
    assert_eq!(cpu.a, 0x00);
    assert!(cpu.status.z);
    assert!(!cpu.status.n);
    assert_eq!(cpu.cycles, 2);
}

#[test]
fn adc_with_overflow() {
    let mut mem = program(0xC000, &[0x69, 0x50]);
    let mut cpu = Processor::new();
    cpu.pc = 0xC000;
    cpu.a = 0x50;
    cpu.status.c = false;
    cpu.step(&mut mem);
    assert_eq!(cpu.a, 0xA0);
    assert!(cpu.status.n);
    assert!(cpu.status.v);
    assert!(!cpu.status.c);
    assert!(!cpu.status.z);
    assert_eq!(cpu.cycles, 2);
}

#[test]
fn absolute_x_read_pays_page_cross() {
    let mut mem = program(0x8000, &[0xBD, 0xFF, 0x12]);
    mem.write(0x1300, 0x77);
    let mut cpu = Processor::new();
    cpu.x = 0x01;
    cpu.step(&mut mem);
    assert_eq!(cpu.a, 0x77);
    assert_eq!(cpu.cycles, 5);
    assert_eq!(cpu.pc, 0x8003);
}

#[test]
fn absolute_x_store_pays_no_penalty() {
    let mut mem = program(0x8000, &[0x9D, 0xFF, 0x12]);
    let mut cpu = Processor::new();
    cpu.x = 0x01;
    cpu.a = 0x3C;
    cpu.step(&mut mem);
    assert_eq!(mem.read(0x1300), 0x3C);
    assert_eq!(cpu.cycles, 5);
}

#[test]
fn jmp_indirect_page_wrap() {
    let mut mem = program(0x8000, &[0x6C, 0xFF, 0x30]);
    mem.write(0x30FF, 0x80);
    mem.write(0x3000, 0x50);
    mem.write(0x3100, 0x99);
    let mut cpu = Processor::new();
    cpu.step(&mut mem);
    assert_eq!(cpu.pc, 0x5080);
    assert_eq!(cpu.cycles, 5);
}

#[test]
fn taken_branch_crossing_page() {
    let mut mem = program(0x80F0, &[0xF0, 0x20]);
    let mut cpu = Processor::new();
    cpu.pc = 0x80F0;
    cpu.status.z = true;
    cpu.step(&mut mem);
    assert_eq!(cpu.pc, 0x8112);
    assert_eq!(cpu.cycles, 4);
    assert!(cpu.page_crossed());
}

#[test]
fn untaken_branch_costs_base() {
    let mut mem = program(0x80F0, &[0xF0, 0x20]);
    let mut cpu = Processor::new();
    cpu.pc = 0x80F0;
    cpu.step(&mut mem);
    assert_eq!(cpu.pc, 0x80F2);
    assert_eq!(cpu.cycles, 2);
    assert!(!cpu.page_crossed());
}

#[test]
fn backward_branch_same_page() {
    let mut mem = program(0x8010, &[0xD0, 0xFC]);
    let mut cpu = Processor::new();
    cpu.pc = 0x8010;
    cpu.step(&mut mem);
    assert_eq!(cpu.pc, 0x800E);
    assert_eq!(cpu.cycles, 3);
    assert!(!cpu.page_crossed());
}
