use vstd::prelude::*;

use crate::memory::{signed, word};
use crate::processor::Processor;
use crate::status::{Status, FLAG_B};

verus! {

/// How an instruction finds its operand.
///
/// The `...Read` variants are the forms used by instructions that only read
/// their operand: they pay one extra cycle when indexing crosses a page.
/// Stores and read-modify-write instructions use the plain variants, which never do.
#[derive(Clone, Copy, Debug, PartialEq, Eq, Structural)]
pub enum Mode {
    Implied,
    Immediate,
    ZeroPage,
    ZeroPageX,
    ZeroPageY,
    Absolute,
    AbsoluteX,
    AbsoluteXRead,
    AbsoluteY,
    AbsoluteYRead,
    Indirect,
    IndirectX,
    IndirectY,
    IndirectYRead,
    Relative,
}

/// What an instruction does once its operand address is known.
#[derive(Clone, Copy, Debug, PartialEq, Eq, Structural)]
pub enum Operation {
    Lda,
    Ldx,
    Ldy,
    Lax,
    Sta,
    Stx,
    Sty,
    Sax,
    Tax,
    Tay,
    Txa,
    Tya,
    Tsx,
    Txs,
    Pha,
    Php,
    Pla,
    Plp,
    And,
    Eor,
    Ora,
    Bit,
    Adc,
    Sbc,
    Cmp,
    Cpx,
    Cpy,
    Inc,
    Dec,
    Inx,
    Iny,
    Dex,
    Dey,
    AslA,
    LsrA,
    RolA,
    RorA,
    Asl,
    Lsr,
    Rol,
    Ror,
    Jmp,
    Jsr,
    Rts,
    Bpl,
    Bmi,
    Bvc,
    Bvs,
    Bcc,
    Bcs,
    Bne,
    Beq,
    Clc,
    Cld,
    Cli,
    Clv,
    Sec,
    Sed,
    Sei,
    Brk,
    Rti,
    Nop,
    Dcp,
    Isc,
    Slo,
    Rla,
    Sre,
    Rra,
}

// ---------------------------------------------------------------------------
// Arithmetic and flag rules on plain values
// ---------------------------------------------------------------------------
/// Z and N from a result byte.
pub open spec fn with_nz(st: Status, v: u8) -> Status {
    Status { z: v == 0, n: v >= 0x80, ..st }
}

pub open spec fn carry_in(c: bool) -> int {
    if c {
        1
    } else {
        0
    }
}

/// Add with carry: the result byte, the carry out, and signed overflow.
pub open spec fn adc(a: u8, m: u8, c: bool) -> (u8, bool, bool) {
    let sum = a + m + carry_in(c);
    let r = (sum % 256) as u8;
    (r, sum >= 256, (a >= 0x80) == (m >= 0x80) && (r >= 0x80) != (a >= 0x80))
}

/// Subtract with borrow (the borrow is the complement of the carry): the
/// result byte, the carry out (set when no borrow occurred), and signed overflow.
pub open spec fn sbc(a: u8, m: u8, c: bool) -> (u8, bool, bool) {
    let diff = a - m - (1 - carry_in(c));
    let r = ((diff + 256) % 256) as u8;
    (r, diff >= 0, (a >= 0x80) != (m >= 0x80) && (r >= 0x80) != (a >= 0x80))
}

/// Flags after comparing a register with an operand.
pub open spec fn compare(st: Status, reg: u8, m: u8) -> Status {
    Status { c: reg >= m, z: reg == m, n: reg.wrapping_sub(m) >= 0x80, ..st }
}

/// Shift left: result and carry out.
pub open spec fn asl(m: u8) -> (u8, bool) {
    (((m * 2) % 256) as u8, m >= 0x80)
}

/// Shift right: result and carry out.
pub open spec fn lsr(m: u8) -> (u8, bool) {
    ((m / 2) as u8, m % 2 == 1)
}

/// Rotate left through the carry.
pub open spec fn rol(m: u8, c: bool) -> (u8, bool) {
    (((m * 2) % 256 + carry_in(c)) as u8, m >= 0x80)
}

/// Rotate right through the carry.
pub open spec fn ror(m: u8, c: bool) -> (u8, bool) {
    ((m / 2 + 128 * carry_in(c)) as u8, m % 2 == 1)
}

/// Sign-extended relative target from the address after the offset byte.
pub open spec fn branch_target(next: u16, offset: u8) -> u16 {
    ((next + signed(offset)) % 65536) as u16
}

/// The page (high byte) of an address differs.
pub open spec fn crosses(base: u16, addr: u16) -> bool {
    base / 256 != addr / 256
}

/// Where `JMP (ptr)` reads the target's high byte: the next address, except
/// that the low byte of the pointer wraps without carrying into the page.
pub open spec fn indirect_hi_addr(ptr: u16) -> u16 {
    if ptr % 256 == 255 {
        (ptr - 255) as u16
    } else {
        (ptr + 1) as u16
    }
}

/// The 16-bit word stored in zero page at `p`, its high byte read at `p + 1` within zero page.
pub open spec fn zp_word(m: Seq<u8>, p: u8) -> u16 {
    word(m[p as int], m[p.wrapping_add(1) as int])
}

pub open spec fn hi_byte(w: u16) -> u8 {
    (w / 256) as u8
}

pub open spec fn lo_byte(w: u16) -> u8 {
    (w % 256) as u8
}

// ---------------------------------------------------------------------------
// Processor state transitions
// ---------------------------------------------------------------------------
/// Address of the stack slot for a stack pointer value.
pub open spec fn stack_addr(s: u8) -> int {
    0x100 + s
}

/// Writes a byte at the top of the stack, then moves the stack pointer down.
pub open spec fn push(cpu: Processor, m: Seq<u8>, v: u8) -> (Processor, Seq<u8>) {
    (Processor { s: cpu.s.wrapping_sub(1), ..cpu }, m.update(stack_addr(cpu.s), v))
}

/// Moves the stack pointer up, then reads the byte there.
pub open spec fn pull(cpu: Processor, m: Seq<u8>) -> (Processor, u8) {
    let s = cpu.s.wrapping_add(1);
    (Processor { s: s, ..cpu }, m[stack_addr(s)])
}

pub open spec fn add_cycle(cpu: Processor, extra: bool) -> Processor {
    if extra {
        Processor { cycles: (cpu.cycles + 1) as u32, ..cpu }
    } else {
        cpu
    }
}

/// The effective address of an operand and the state after the operand
/// bytes are consumed, with `cpu.pc` at the first operand byte.
pub open spec fn resolve(cpu: Processor, m: Seq<u8>, mode: Mode) -> (u16, Processor) {
    let pc = cpu.pc;
    let b = m[pc as int];
    let w = word(m[pc as int], m[pc.wrapping_add(1) as int]);
    let one = Processor { pc: pc.wrapping_add(1), ..cpu };
    let two = Processor { pc: pc.wrapping_add(2), ..cpu };
    match mode {
        Mode::Implied => (0, cpu),
        Mode::Immediate => (pc, one),
        Mode::ZeroPage => (b as u16, one),
        Mode::ZeroPageX => (b.wrapping_add(cpu.x) as u16, one),
        Mode::ZeroPageY => (b.wrapping_add(cpu.y) as u16, one),
        Mode::Absolute => (w, two),
        Mode::AbsoluteX => (w.wrapping_add(cpu.x as u16), two),
        Mode::AbsoluteXRead => {
            let addr = w.wrapping_add(cpu.x as u16);
            (addr, add_cycle(two, crosses(w, addr)))
        },
        Mode::AbsoluteY => (w.wrapping_add(cpu.y as u16), two),
        Mode::AbsoluteYRead => {
            let addr = w.wrapping_add(cpu.y as u16);
            (addr, add_cycle(two, crosses(w, addr)))
        },
        Mode::Indirect => (word(m[w as int], m[indirect_hi_addr(w) as int]), two),
        Mode::IndirectX => (zp_word(m, b.wrapping_add(cpu.x)), one),
        Mode::IndirectY => (zp_word(m, b).wrapping_add(cpu.y as u16), one),
        Mode::IndirectYRead => {
            let base = zp_word(m, b);
            let addr = base.wrapping_add(cpu.y as u16);
            (addr, add_cycle(one, crosses(base, addr)))
        },
        Mode::Relative => (branch_target(pc.wrapping_add(1), b), one),
    }
}

/// Takes a branch to `target` if `cond` holds: one extra cycle, and one
/// more when the target lies on another page than the next instruction.
pub open spec fn branch(cpu: Processor, cond: bool, target: u16) -> Processor {
    if cond {
        let cross = crosses(cpu.pc, target);
        Processor {
            pc: target,
            cycles: (cpu.cycles + 1 + (if cross { 1int } else { 0 })) as u32,
            page_crossed: cross,
            ..cpu
        }
    } else {
        cpu
    }
}

pub open spec fn set_a(cpu: Processor, v: u8) -> Processor {
    Processor { a: v, status: with_nz(cpu.status, v), ..cpu }
}

pub open spec fn set_x(cpu: Processor, v: u8) -> Processor {
    Processor { x: v, status: with_nz(cpu.status, v), ..cpu }
}

pub open spec fn set_y(cpu: Processor, v: u8) -> Processor {
    Processor { y: v, status: with_nz(cpu.status, v), ..cpu }
}

/// A with the result of an add, its carry and overflow, and N, Z.
pub open spec fn add_into_a(cpu: Processor, r: (u8, bool, bool)) -> Processor {
    Processor { a: r.0, status: with_nz(Status { c: r.1, v: r.2, ..cpu.status }, r.0), ..cpu }
}

/// Writes a read-modify-write result and sets C from the shift.
pub open spec fn write_shifted(cpu: Processor, m: Seq<u8>, addr: u16, r: (u8, bool)) -> (
    Processor,
    Seq<u8>,
) {
    (
        Processor { status: with_nz(Status { c: r.1, ..cpu.status }, r.0), ..cpu },
        m.update(addr as int, r.0),
    )
}

pub open spec fn shifted_a(cpu: Processor, r: (u8, bool)) -> Processor {
    Processor { a: r.0, status: with_nz(Status { c: r.1, ..cpu.status }, r.0), ..cpu }
}

/// The effect of an operation on the state, given its operand address.
pub open spec fn apply(op: Operation, cpu: Processor, m: Seq<u8>, addr: u16) -> (
    Processor,
    Seq<u8>,
) {
    let v = m[addr as int];
    let st = cpu.status;
    match op {
        Operation::Lda => (set_a(cpu, v), m),
        Operation::Ldx => (set_x(cpu, v), m),
        Operation::Ldy => (set_y(cpu, v), m),
        Operation::Lax => (Processor { a: v, x: v, status: with_nz(st, v), ..cpu }, m),
        Operation::Sta => (cpu, m.update(addr as int, cpu.a)),
        Operation::Stx => (cpu, m.update(addr as int, cpu.x)),
        Operation::Sty => (cpu, m.update(addr as int, cpu.y)),
        Operation::Sax => (cpu, m.update(addr as int, cpu.a & cpu.x)),
        Operation::Tax => (set_x(cpu, cpu.a), m),
        Operation::Tay => (set_y(cpu, cpu.a), m),
        Operation::Txa => (set_a(cpu, cpu.x), m),
        Operation::Tya => (set_a(cpu, cpu.y), m),
        Operation::Tsx => (set_x(cpu, cpu.s), m),
        Operation::Txs => (Processor { s: cpu.x, ..cpu }, m),
        Operation::Pha => push(cpu, m, cpu.a),
        Operation::Php => push(cpu, m, st.spec_byte() | FLAG_B),
        Operation::Pla => {
            let (c1, b) = pull(cpu, m);
            (set_a(c1, b), m)
        },
        Operation::Plp => {
            let (c1, b) = pull(cpu, m);
            (Processor { status: Status::spec_from_byte(b), ..c1 }, m)
        },
        Operation::And => (set_a(cpu, cpu.a & v), m),
        Operation::Eor => (set_a(cpu, cpu.a ^ v), m),
        Operation::Ora => (set_a(cpu, cpu.a | v), m),
        Operation::Bit => (
            Processor {
                status: Status { z: cpu.a & v == 0, v: v & 0x40 != 0, n: v & 0x80 != 0, ..st },
                ..cpu
            },
            m,
        ),
        Operation::Adc => (add_into_a(cpu, adc(cpu.a, v, st.c)), m),
        Operation::Sbc => (add_into_a(cpu, sbc(cpu.a, v, st.c)), m),
        Operation::Cmp => (Processor { status: compare(st, cpu.a, v), ..cpu }, m),
        Operation::Cpx => (Processor { status: compare(st, cpu.x, v), ..cpu }, m),
        Operation::Cpy => (Processor { status: compare(st, cpu.y, v), ..cpu }, m),
        Operation::Inc => {
            let r = v.wrapping_add(1);
            (Processor { status: with_nz(st, r), ..cpu }, m.update(addr as int, r))
        },
        Operation::Dec => {
            let r = v.wrapping_sub(1);
            (Processor { status: with_nz(st, r), ..cpu }, m.update(addr as int, r))
        },
        Operation::Inx => (set_x(cpu, cpu.x.wrapping_add(1)), m),
        Operation::Iny => (set_y(cpu, cpu.y.wrapping_add(1)), m),
        Operation::Dex => (set_x(cpu, cpu.x.wrapping_sub(1)), m),
        Operation::Dey => (set_y(cpu, cpu.y.wrapping_sub(1)), m),
        Operation::AslA => (shifted_a(cpu, asl(cpu.a)), m),
        Operation::LsrA => (shifted_a(cpu, lsr(cpu.a)), m),
        Operation::RolA => (shifted_a(cpu, rol(cpu.a, st.c)), m),
        Operation::RorA => (shifted_a(cpu, ror(cpu.a, st.c)), m),
        Operation::Asl => write_shifted(cpu, m, addr, asl(v)),
        Operation::Lsr => write_shifted(cpu, m, addr, lsr(v)),
        Operation::Rol => write_shifted(cpu, m, addr, rol(v, st.c)),
        Operation::Ror => write_shifted(cpu, m, addr, ror(v, st.c)),
        Operation::Jmp => (Processor { pc: addr, ..cpu }, m),
        Operation::Jsr => {
            let ret = cpu.pc.wrapping_sub(1);
            let (c1, m1) = push(cpu, m, hi_byte(ret));
            let (c2, m2) = push(c1, m1, lo_byte(ret));
            (Processor { pc: addr, ..c2 }, m2)
        },
        Operation::Rts => {
            let (c1, lo) = pull(cpu, m);
            let (c2, hi) = pull(c1, m);
            (Processor { pc: word(lo, hi).wrapping_add(1), ..c2 }, m)
        },
        Operation::Bpl => (branch(cpu, !st.n, addr), m),
        Operation::Bmi => (branch(cpu, st.n, addr), m),
        Operation::Bvc => (branch(cpu, !st.v, addr), m),
        Operation::Bvs => (branch(cpu, st.v, addr), m),
        Operation::Bcc => (branch(cpu, !st.c, addr), m),
        Operation::Bcs => (branch(cpu, st.c, addr), m),
        Operation::Bne => (branch(cpu, !st.z, addr), m),
        Operation::Beq => (branch(cpu, st.z, addr), m),
        Operation::Clc => (Processor { status: Status { c: false, ..st }, ..cpu }, m),
        Operation::Cld => (Processor { status: Status { d: false, ..st }, ..cpu }, m),
        Operation::Cli => (Processor { status: Status { i: false, ..st }, ..cpu }, m),
        Operation::Clv => (Processor { status: Status { v: false, ..st }, ..cpu }, m),
        Operation::Sec => (Processor { status: Status { c: true, ..st }, ..cpu }, m),
        Operation::Sed => (Processor { status: Status { d: true, ..st }, ..cpu }, m),
        Operation::Sei => (Processor { status: Status { i: true, ..st }, ..cpu }, m),
        Operation::Brk => {
            let ret = cpu.pc.wrapping_add(1);
            let c0 = Processor { pc: ret, ..cpu };
            let (c1, m1) = push(c0, m, hi_byte(ret));
            let (c2, m2) = push(c1, m1, lo_byte(ret));
            let (c3, m3) = push(c2, m2, st.spec_byte() | FLAG_B);
            (Processor { status: Status { i: true, ..st }, ..c3 }, m3)
        },
        Operation::Rti => {
            let (c1, p) = pull(cpu, m);
            let (c2, lo) = pull(c1, m);
            let (c3, hi) = pull(c2, m);
            (Processor { pc: word(lo, hi), status: Status::spec_from_byte(p), ..c3 }, m)
        },
        Operation::Nop => (cpu, m),
        Operation::Dcp => {
            let r = v.wrapping_sub(1);
            (Processor { status: compare(st, cpu.a, r), ..cpu }, m.update(addr as int, r))
        },
        Operation::Isc => {
            let r = v.wrapping_add(1);
            (add_into_a(cpu, sbc(cpu.a, r, st.c)), m.update(addr as int, r))
        },
        Operation::Slo => {
            let (r, c) = asl(v);
            (
                set_a(Processor { status: Status { c: c, ..st }, ..cpu }, cpu.a | r),
                m.update(addr as int, r),
            )
        },
        Operation::Rla => {
            let (r, c) = rol(v, st.c);
            (
                set_a(Processor { status: Status { c: c, ..st }, ..cpu }, cpu.a & r),
                m.update(addr as int, r),
            )
        },
        Operation::Sre => {
            let (r, c) = lsr(v);
            (
                set_a(Processor { status: Status { c: c, ..st }, ..cpu }, cpu.a ^ r),
                m.update(addr as int, r),
            )
        },
        Operation::Rra => {
            let (r, c) = ror(v, st.c);
            (add_into_a(cpu, adc(cpu.a, r, c)), m.update(addr as int, r))
        },
    }
}

/// One instruction after its opcode byte: resolve the operand, then apply the operation.
pub open spec fn execute(op: Operation, mode: Mode, cpu: Processor, m: Seq<u8>) -> (
    Processor,
    Seq<u8>,
) {
    let (addr, c1) = resolve(cpu, m, mode);
    apply(op, c1, m, addr)
}

} // verus!
