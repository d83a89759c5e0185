use vstd::prelude::*;

use crate::isa::{
    add_into_a, adc, asl, branch, compare, execute, lsr, pull, push, rol, ror, sbc, set_a, set_x,
    set_y, shifted_a, with_nz, Mode, Operation,
};
use crate::memory::{signed, word, Memory};
use crate::op::{self, decode, BASE_CYCLES};
use crate::status::{Status, FLAG_B};

verus! {

/// Register file and cycle accounting of the processor.
#[derive(Clone, Copy, Debug, PartialEq, Eq, Structural)]
pub struct Processor {
    pub a: u8,
    pub x: u8,
    pub y: u8,
    /// Stack pointer; the stack slot is at `0x0100 | s`.
    pub s: u8,
    pub pc: u16,
    pub status: Status,
    /// Cycles spent by the most recently executed instruction.
    pub cycles: u32,
    /// The most recently executed branch was taken to another page.
    pub page_crossed: bool,
}

/// The state after the opcode byte is fetched: PC past it, the opcode's base
/// cycle cost, and no page crossing yet.
pub open spec fn fetch(cpu: Processor, m: Seq<u8>) -> Processor {
    Processor {
        pc: cpu.pc.wrapping_add(1),
        cycles: BASE_CYCLES[m[cpu.pc as int] as int] as u32,
        page_crossed: false,
        ..cpu
    }
}

/// One instruction: fetch the opcode at PC, then execute what it decodes to.
pub open spec fn step_spec(cpu: Processor, m: Seq<u8>) -> (Processor, Seq<u8>) {
    match decode(m[cpu.pc as int]) {
        Some((op, mode)) => execute(op, mode, fetch(cpu, m), m),
        None => (cpu, m),
    }
}

/// Little-endian word from two bytes.
fn make_word(lo: u8, hi: u8) -> (r: u16)
    ensures
        r == word(lo, hi),
{
    (hi as u16) * 256 + (lo as u16)
}

proof fn lemma_double_mod(m: u8)
    ensures
        (m * 2) % 256 == if m >= 0x80 {
            (m - 0x80) * 2
        } else {
            m * 2
        },
{
    if m >= 0x80 {
        assert(m * 2 == 256 + (m - 0x80) * 2);
    }
}

fn shift_left(m: u8) -> (r: (u8, bool))
    ensures
        r == asl(m),
{
    proof {
        lemma_double_mod(m);
    }
    (if m >= 0x80 { (m - 0x80) * 2 } else { m * 2 }, m >= 0x80)
}

fn shift_right(m: u8) -> (r: (u8, bool))
    ensures
        r == lsr(m),
{
    (m / 2, m % 2 == 1)
}

fn rotate_left(m: u8, c: bool) -> (r: (u8, bool))
    ensures
        r == rol(m, c),
{
    proof {
        lemma_double_mod(m);
    }
    let doubled = if m >= 0x80 {
        (m - 0x80) * 2
    } else {
        m * 2
    };
    (doubled + (if c { 1u8 } else { 0u8 }), m >= 0x80)
}

fn rotate_right(m: u8, c: bool) -> (r: (u8, bool))
    ensures
        r == ror(m, c),
{
    (m / 2 + (if c { 128u8 } else { 0u8 }), m % 2 == 1)
}

proof fn lemma_overflow_bits(a: u8, m: u8, r: u8)
    by (bit_vector)
    ensures
        ((!(a ^ m)) & (a ^ r) & 0x80u8 != 0u8) == ((a >= 0x80u8) == (m >= 0x80u8) && (r >= 0x80u8)
            != (a >= 0x80u8)),
{
}

/// Subtracting with borrow is adding the complement of the operand: the two
/// agree in result, carry and overflow for every accumulator, operand and carry in.
pub proof fn lemma_sbc_is_adc_of_complement(a: u8, m: u8, c: bool)
    ensures
        sbc(a, m, c) == adc(a, m ^ 0xFF, c),
{
    assert(m ^ 0xFF == 255 - m) by (bit_vector);
}

impl Processor {
    /// The generic start profile: S = 0xFF, PC = 0x8000, all flags clear.
    pub fn new() -> (r: Processor)
        ensures
            r == (Processor {
                a: 0,
                x: 0,
                y: 0,
                s: 0xFF,
                pc: 0x8000,
                status: Status { n: false, v: false, d: false, i: false, z: false, c: false },
                cycles: 0,
                page_crossed: false,
            }),
    {
        Processor {
            a: 0,
            x: 0,
            y: 0,
            s: 0xFF,
            pc: 0x8000,
            status: Status::cleared(),
            cycles: 0,
            page_crossed: false,
        }
    }

    /// The 2A03 reset profile: S = 0xFD, PC = 0xC000, only I set (status byte 0x24).
    pub fn nes() -> (r: Processor)
        ensures
            r == (Processor {
                a: 0,
                x: 0,
                y: 0,
                s: 0xFD,
                pc: 0xC000,
                status: Status { n: false, v: false, d: false, i: true, z: false, c: false },
                cycles: 0,
                page_crossed: false,
            }),
            r.status.spec_byte() == 0x24,
    {
        let r = Processor {
            a: 0,
            x: 0,
            y: 0,
            s: 0xFD,
            pc: 0xC000,
            status: Status { n: false, v: false, d: false, i: true, z: false, c: false },
            cycles: 0,
            page_crossed: false,
        };
        assert((0u8 | 0u8 | 0x20u8 | 0u8 | 0x04u8 | 0u8 | 0u8) == 0x24u8) by (bit_vector);
        r
    }

    pub fn page_crossed(&self) -> (r: bool)
        ensures
            r == self.page_crossed,
    {
        self.page_crossed
    }

    /// The status byte as observed from outside: `U` reads as 1, `B` as 0.
    pub fn p(&self) -> (r: u8)
        ensures
            r == self.status.spec_byte(),
    {
        self.status.byte()
    }

    fn setn(&mut self, on: bool)
        ensures
            *final(self) == (Processor { status: Status { n: on, ..old(self).status }, ..*old(self) }),
    {
        self.status.n = on;
    }

    fn setv(&mut self, on: bool)
        ensures
            *final(self) == (Processor { status: Status { v: on, ..old(self).status }, ..*old(self) }),
    {
        self.status.v = on;
    }

    fn setz(&mut self, on: bool)
        ensures
            *final(self) == (Processor { status: Status { z: on, ..old(self).status }, ..*old(self) }),
    {
        self.status.z = on;
    }

    fn setc(&mut self, on: bool)
        ensures
            *final(self) == (Processor { status: Status { c: on, ..old(self).status }, ..*old(self) }),
    {
        self.status.c = on;
    }

    /// Z and N from a result byte.
    fn set_nz(&mut self, v: u8)
        ensures
            *final(self) == (Processor { status: with_nz(old(self).status, v), ..*old(self) }),
    {
        self.setz(v == 0);
        self.setn(v >= 0x80);
    }

    fn read(&self, mem: &Memory, addr: u16) -> (r: u8)
        ensures
            r == mem@[addr as int],
    {
        mem.read(addr)
    }

    fn read_i8(&self, mem: &Memory, addr: u16) -> (r: i8)
        ensures
            r as int == signed(mem@[addr as int]),
    {
        mem.read_i8(addr)
    }

    fn read_u16(&self, mem: &Memory, addr: u16) -> (r: u16)
        ensures
            r == word(mem@[addr as int], mem@[addr.wrapping_add(1) as int]),
    {
        mem.read_u16(addr)
    }

    fn write(&self, mem: &mut Memory, addr: u16, value: u8)
        ensures
            final(mem)@ == old(mem)@.update(addr as int, value),
    {
        mem.write(addr, value);
    }

    fn push(&mut self, mem: &mut Memory, value: u8)
        ensures
            (*final(self), final(mem)@) == push(*old(self), old(mem)@, value),
    {
        self.write(mem, 0x0100 + self.s as u16, value);
        self.s = self.s.wrapping_sub(1);
    }

    fn pull(&mut self, mem: &Memory) -> (r: u8)
        ensures
            (*final(self), r) == pull(*old(self), mem@),
    {
        self.s = self.s.wrapping_add(1);
        self.read(mem, 0x0100 + self.s as u16)
    }

    // Addressing modes: each consumes the operand bytes at PC and returns the effective address.
    fn imm(&mut self) -> (r: u16)
        ensures
            r == old(self).pc,
            *final(self) == (Processor { pc: old(self).pc.wrapping_add(1), ..*old(self) }),
    {
        let addr = self.pc;
        self.pc = self.pc.wrapping_add(1);
        addr
    }

    fn zp(&mut self, mem: &Memory) -> (r: u16)
        ensures
            (r, *final(self)) == crate::isa::resolve(*old(self), mem@, Mode::ZeroPage),
    {
        let addr = self.read(mem, self.pc);
        self.pc = self.pc.wrapping_add(1);
        addr as u16
    }

    fn zpx(&mut self, mem: &Memory) -> (r: u16)
        ensures
            (r, *final(self)) == crate::isa::resolve(*old(self), mem@, Mode::ZeroPageX),
    {
        let addr = self.read(mem, self.pc);
        self.pc = self.pc.wrapping_add(1);
        addr.wrapping_add(self.x) as u16
    }

    fn zpy(&mut self, mem: &Memory) -> (r: u16)
        ensures
            (r, *final(self)) == crate::isa::resolve(*old(self), mem@, Mode::ZeroPageY),
    {
        let addr = self.read(mem, self.pc);
        self.pc = self.pc.wrapping_add(1);
        addr.wrapping_add(self.y) as u16
    }

    fn abs(&mut self, mem: &Memory) -> (r: u16)
        ensures
            (r, *final(self)) == crate::isa::resolve(*old(self), mem@, Mode::Absolute),
    {
        let addr = self.read_u16(mem, self.pc);
        self.pc = self.pc.wrapping_add(2);
        addr
    }

    /// Absolute,X for instructions that only read: one more cycle on a page crossing.
    fn absx(&mut self, mem: &Memory) -> (r: u16)
        requires
            old(self).cycles <= 0xFF,
        ensures
            (r, *final(self)) == crate::isa::resolve(*old(self), mem@, Mode::AbsoluteXRead),
    {
        let base = self.read_u16(mem, self.pc);
        self.pc = self.pc.wrapping_add(2);
        let addr = base.wrapping_add(self.x as u16);
        if base / 256 != addr / 256 {
            self.cycles = self.cycles + 1;
        }
        addr
    }

    /// Absolute,X for stores and read-modify-write: no page-crossing cycle.
    fn absx_ro(&mut self, mem: &Memory) -> (r: u16)
        ensures
            (r, *final(self)) == crate::isa::resolve(*old(self), mem@, Mode::AbsoluteX),
    {
        let base = self.read_u16(mem, self.pc);
        self.pc = self.pc.wrapping_add(2);
        base.wrapping_add(self.x as u16)
    }

    /// Absolute,Y for instructions that only read: one more cycle on a page crossing.
    fn absy(&mut self, mem: &Memory) -> (r: u16)
        requires
            old(self).cycles <= 0xFF,
        ensures
            (r, *final(self)) == crate::isa::resolve(*old(self), mem@, Mode::AbsoluteYRead),
    {
        let base = self.read_u16(mem, self.pc);
        self.pc = self.pc.wrapping_add(2);
        let addr = base.wrapping_add(self.y as u16);
        if base / 256 != addr / 256 {
            self.cycles = self.cycles + 1;
        }
        addr
    }

    /// Absolute,Y for stores and read-modify-write: no page-crossing cycle.
    fn absy_ro(&mut self, mem: &Memory) -> (r: u16)
        ensures
            (r, *final(self)) == crate::isa::resolve(*old(self), mem@, Mode::AbsoluteY),
    {
        let base = self.read_u16(mem, self.pc);
        self.pc = self.pc.wrapping_add(2);
        base.wrapping_add(self.y as u16)
    }

    /// The indirect form of JMP, with the pointer's page wrap.
    fn ind(&mut self, mem: &Memory) -> (r: u16)
        ensures
            (r, *final(self)) == crate::isa::resolve(*old(self), mem@, Mode::Indirect),
    {
        let ptr = self.read_u16(mem, self.pc);
        self.pc = self.pc.wrapping_add(2);
        // The high byte comes from the same page when the low byte of the pointer is 0xFF.
        let hi_addr = if ptr % 256 == 255 {
            ptr - 255
        } else {
            ptr + 1
        };
        make_word(self.read(mem, ptr), self.read(mem, hi_addr))
    }

    fn indx(&mut self, mem: &Memory) -> (r: u16)
        ensures
            (r, *final(self)) == crate::isa::resolve(*old(self), mem@, Mode::IndirectX),
    {
        let zp = self.read(mem, self.pc);
        let p = zp.wrapping_add(self.x);
        self.pc = self.pc.wrapping_add(1);
        make_word(self.read(mem, p as u16), self.read(mem, p.wrapping_add(1) as u16))
    }

    /// (Indirect),Y for instructions that only read: one more cycle on a page crossing.
    fn indy(&mut self, mem: &Memory) -> (r: u16)
        requires
            old(self).cycles <= 0xFF,
        ensures
            (r, *final(self)) == crate::isa::resolve(*old(self), mem@, Mode::IndirectYRead),
    {
        let zp = self.read(mem, self.pc);
        let base = make_word(self.read(mem, zp as u16), self.read(mem, zp.wrapping_add(1) as u16));
        let addr = base.wrapping_add(self.y as u16);
        if base / 256 != addr / 256 {
            self.cycles = self.cycles + 1;
        }
        self.pc = self.pc.wrapping_add(1);
        addr
    }

    /// (Indirect),Y for stores and read-modify-write: no page-crossing cycle.
    fn indy_ro(&mut self, mem: &Memory) -> (r: u16)
        ensures
            (r, *final(self)) == crate::isa::resolve(*old(self), mem@, Mode::IndirectY),
    {
        let zp = self.read(mem, self.pc);
        let base = make_word(self.read(mem, zp as u16), self.read(mem, zp.wrapping_add(1) as u16));
        self.pc = self.pc.wrapping_add(1);
        base.wrapping_add(self.y as u16)
    }

    /// The branch target: the address after the offset byte plus the signed offset.
    fn rel(&mut self, mem: &Memory) -> (r: u16)
        ensures
            (r, *final(self)) == crate::isa::resolve(*old(self), mem@, Mode::Relative),
    {
        let offset = self.read_i8(mem, self.pc);
        self.pc = self.pc.wrapping_add(1);
        if offset >= 0 {
            self.pc.wrapping_add(offset as u16)
        } else {
            self.pc.wrapping_sub((0 - (offset as i16)) as u16)
        }
    }

    // Operations on a resolved operand address.
    fn lda(&mut self, mem: &Memory, addr: u16)
        ensures
            (*final(self), mem@) == crate::isa::apply(Operation::Lda, *old(self), mem@, addr),
    {
        let v = self.read(mem, addr);
        self.a = v;
        self.set_nz(v);
    }

    fn ldx(&mut self, mem: &Memory, addr: u16)
        ensures
            (*final(self), mem@) == crate::isa::apply(Operation::Ldx, *old(self), mem@, addr),
    {
        let v = self.read(mem, addr);
        self.x = v;
        self.set_nz(v);
    }

    fn ldy(&mut self, mem: &Memory, addr: u16)
        ensures
            (*final(self), mem@) == crate::isa::apply(Operation::Ldy, *old(self), mem@, addr),
    {
        let v = self.read(mem, addr);
        self.y = v;
        self.set_nz(v);
    }

    fn lax(&mut self, mem: &Memory, addr: u16)
        ensures
            (*final(self), mem@) == crate::isa::apply(Operation::Lax, *old(self), mem@, addr),
    {
        let v = self.read(mem, addr);
        self.a = v;
        self.x = v;
        self.set_nz(v);
    }

    fn sta(&mut self, mem: &mut Memory, addr: u16)
        ensures
            (*final(self), final(mem)@) == crate::isa::apply(
                Operation::Sta,
                *old(self),
                old(mem)@,
                addr,
            ),
    {
        self.write(mem, addr, self.a);
    }

    fn stx(&mut self, mem: &mut Memory, addr: u16)
        ensures
            (*final(self), final(mem)@) == crate::isa::apply(
                Operation::Stx,
                *old(self),
                old(mem)@,
                addr,
            ),
    {
        self.write(mem, addr, self.x);
    }

    fn sty(&mut self, mem: &mut Memory, addr: u16)
        ensures
            (*final(self), final(mem)@) == crate::isa::apply(
                Operation::Sty,
                *old(self),
                old(mem)@,
                addr,
            ),
    {
        self.write(mem, addr, self.y);
    }

    fn sax(&mut self, mem: &mut Memory, addr: u16)
        ensures
            (*final(self), final(mem)@) == crate::isa::apply(
                Operation::Sax,
                *old(self),
                old(mem)@,
                addr,
            ),
    {
        self.write(mem, addr, self.a & self.x);
    }

    fn and(&mut self, mem: &Memory, addr: u16)
        ensures
            (*final(self), mem@) == crate::isa::apply(Operation::And, *old(self), mem@, addr),
    {
        let v = self.a & self.read(mem, addr);
        self.a = v;
        self.set_nz(v);
    }

    fn eor(&mut self, mem: &Memory, addr: u16)
        ensures
            (*final(self), mem@) == crate::isa::apply(Operation::Eor, *old(self), mem@, addr),
    {
        let v = self.a ^ self.read(mem, addr);
        self.a = v;
        self.set_nz(v);
    }

    fn ora(&mut self, mem: &Memory, addr: u16)
        ensures
            (*final(self), mem@) == crate::isa::apply(Operation::Ora, *old(self), mem@, addr),
    {
        let v = self.a | self.read(mem, addr);
        self.a = v;
        self.set_nz(v);
    }

    fn bit(&mut self, mem: &Memory, addr: u16)
        ensures
            (*final(self), mem@) == crate::isa::apply(Operation::Bit, *old(self), mem@, addr),
    {
        let m = self.read(mem, addr);
        self.setz(self.a & m == 0);
        self.setv(m & 0x40 != 0);
        self.setn(m & 0x80 != 0);
    }

    /// A := A + m + C, with C, V, N, Z.
    fn add_with_carry(&mut self, m: u8)
        ensures
            *final(self) == add_into_a(*old(self), adc(old(self).a, m, old(self).status.c)),
    {
        let c: u16 = if self.status.c {
            1
        } else {
            0
        };
        let sum: u16 = self.a as u16 + m as u16 + c;
        let r: u8 = if sum >= 256 {
            (sum - 256) as u8
        } else {
            sum as u8
        };
        let overflow = (!(self.a ^ m)) & (self.a ^ r) & 0x80 != 0;
        proof {
            lemma_overflow_bits(self.a, m, r);
        }
        self.setc(sum >= 256);
        self.setv(overflow);
        self.a = r;
        self.set_nz(r);
    }

    /// A := A - m - (1 - C), computed as an add of the complement.
    fn sub_with_borrow(&mut self, m: u8)
        ensures
            *final(self) == add_into_a(*old(self), sbc(old(self).a, m, old(self).status.c)),
    {
        proof {
            lemma_sbc_is_adc_of_complement(self.a, m, self.status.c);
        }
        self.add_with_carry(m ^ 0xFF);
    }

    fn adc(&mut self, mem: &Memory, addr: u16)
        ensures
            (*final(self), mem@) == crate::isa::apply(Operation::Adc, *old(self), mem@, addr),
    {
        let m = self.read(mem, addr);
        self.add_with_carry(m);
    }

    fn sbc(&mut self, mem: &Memory, addr: u16)
        ensures
            (*final(self), mem@) == crate::isa::apply(Operation::Sbc, *old(self), mem@, addr),
    {
        let m = self.read(mem, addr);
        self.sub_with_borrow(m);
    }

    /// C, Z, N from comparing a register with an operand.
    fn compare_with(&mut self, reg: u8, m: u8)
        ensures
            *final(self) == (Processor { status: compare(old(self).status, reg, m), ..*old(self) }),
    {
        self.setc(reg >= m);
        self.setz(reg == m);
        self.setn(reg.wrapping_sub(m) >= 0x80);
    }

    fn cmp(&mut self, mem: &Memory, addr: u16)
        ensures
            (*final(self), mem@) == crate::isa::apply(Operation::Cmp, *old(self), mem@, addr),
    {
        let m = self.read(mem, addr);
        self.compare_with(self.a, m);
    }

    fn cpx(&mut self, mem: &Memory, addr: u16)
        ensures
            (*final(self), mem@) == crate::isa::apply(Operation::Cpx, *old(self), mem@, addr),
    {
        let m = self.read(mem, addr);
        self.compare_with(self.x, m);
    }

    fn cpy(&mut self, mem: &Memory, addr: u16)
        ensures
            (*final(self), mem@) == crate::isa::apply(Operation::Cpy, *old(self), mem@, addr),
    {
        let m = self.read(mem, addr);
        self.compare_with(self.y, m);
    }

    fn inc(&mut self, mem: &mut Memory, addr: u16)
        ensures
            (*final(self), final(mem)@) == crate::isa::apply(
                Operation::Inc,
                *old(self),
                old(mem)@,
                addr,
            ),
    {
        let v = self.read(mem, addr).wrapping_add(1);
        self.write(mem, addr, v);
        self.set_nz(v);
    }

    fn dec(&mut self, mem: &mut Memory, addr: u16)
        ensures
            (*final(self), final(mem)@) == crate::isa::apply(
                Operation::Dec,
                *old(self),
                old(mem)@,
                addr,
            ),
    {
        let v = self.read(mem, addr).wrapping_sub(1);
        self.write(mem, addr, v);
        self.set_nz(v);
    }

    /// Writes a shifted byte back and sets C, N, Z from the shift.
    fn write_shifted(&mut self, mem: &mut Memory, addr: u16, r: (u8, bool))
        ensures
            (*final(self), final(mem)@) == crate::isa::write_shifted(*old(self), old(mem)@, addr, r),
    {
        self.write(mem, addr, r.0);
        self.setc(r.1);
        self.set_nz(r.0);
    }

    fn asl_at(&mut self, mem: &mut Memory, addr: u16)
        ensures
            (*final(self), final(mem)@) == crate::isa::apply(
                Operation::Asl,
                *old(self),
                old(mem)@,
                addr,
            ),
    {
        let r = shift_left(self.read(mem, addr));
        self.write_shifted(mem, addr, r);
    }

    fn lsr_at(&mut self, mem: &mut Memory, addr: u16)
        ensures
            (*final(self), final(mem)@) == crate::isa::apply(
                Operation::Lsr,
                *old(self),
                old(mem)@,
                addr,
            ),
    {
        let r = shift_right(self.read(mem, addr));
        self.write_shifted(mem, addr, r);
    }

    fn rol_at(&mut self, mem: &mut Memory, addr: u16)
        ensures
            (*final(self), final(mem)@) == crate::isa::apply(
                Operation::Rol,
                *old(self),
                old(mem)@,
                addr,
            ),
    {
        let r = rotate_left(self.read(mem, addr), self.status.c);
        self.write_shifted(mem, addr, r);
    }

    fn ror_at(&mut self, mem: &mut Memory, addr: u16)
        ensures
            (*final(self), final(mem)@) == crate::isa::apply(
                Operation::Ror,
                *old(self),
                old(mem)@,
                addr,
            ),
    {
        let r = rotate_right(self.read(mem, addr), self.status.c);
        self.write_shifted(mem, addr, r);
    }

    fn dcp(&mut self, mem: &mut Memory, addr: u16)
        ensures
            (*final(self), final(mem)@) == crate::isa::apply(
                Operation::Dcp,
                *old(self),
                old(mem)@,
                addr,
            ),
    {
        let v = self.read(mem, addr).wrapping_sub(1);
        self.write(mem, addr, v);
        self.compare_with(self.a, v);
    }

    fn isc(&mut self, mem: &mut Memory, addr: u16)
        ensures
            (*final(self), final(mem)@) == crate::isa::apply(
                Operation::Isc,
                *old(self),
                old(mem)@,
                addr,
            ),
    {
        let v = self.read(mem, addr).wrapping_add(1);
        self.write(mem, addr, v);
        self.sub_with_borrow(v);
    }

    fn slo(&mut self, mem: &mut Memory, addr: u16)
        ensures
            (*final(self), final(mem)@) == crate::isa::apply(
                Operation::Slo,
                *old(self),
                old(mem)@,
                addr,
            ),
    {
        let (r, c) = shift_left(self.read(mem, addr));
        self.write(mem, addr, r);
        self.setc(c);
        let v = self.a | r;
        self.a = v;
        self.set_nz(v);
    }

    fn rla(&mut self, mem: &mut Memory, addr: u16)
        ensures
            (*final(self), final(mem)@) == crate::isa::apply(
                Operation::Rla,
                *old(self),
                old(mem)@,
                addr,
            ),
    {
        let (r, c) = rotate_left(self.read(mem, addr), self.status.c);
        self.write(mem, addr, r);
        self.setc(c);
        let v = self.a & r;
        self.a = v;
        self.set_nz(v);
    }

    fn sre(&mut self, mem: &mut Memory, addr: u16)
        ensures
            (*final(self), final(mem)@) == crate::isa::apply(
                Operation::Sre,
                *old(self),
                old(mem)@,
                addr,
            ),
    {
        let (r, c) = shift_right(self.read(mem, addr));
        self.write(mem, addr, r);
        self.setc(c);
        let v = self.a ^ r;
        self.a = v;
        self.set_nz(v);
    }

    fn rra(&mut self, mem: &mut Memory, addr: u16)
        ensures
            (*final(self), final(mem)@) == crate::isa::apply(
                Operation::Rra,
                *old(self),
                old(mem)@,
                addr,
            ),
    {
        let (r, c) = rotate_right(self.read(mem, addr), self.status.c);
        self.write(mem, addr, r);
        self.setc(c);
        self.add_with_carry(r);
    }

    /// Takes the branch when `taken`, paying one cycle, and one more when the
    /// target is on another page than the next instruction.
    fn branch(&mut self, taken: bool, target: u16)
        requires
            old(self).cycles <= 0xFF,
        ensures
            *final(self) == branch(*old(self), taken, target),
    {
        if taken {
            let cross = self.pc / 256 != target / 256;
            self.pc = target;
            self.cycles = self.cycles + 1;
            if cross {
                self.cycles = self.cycles + 1;
            }
            self.page_crossed = cross;
        }
    }

    // Register transfers.
    fn tax(&mut self)
        ensures
            *final(self) == set_x(*old(self), old(self).a),
    {
        self.x = self.a;
        self.set_nz(self.x);
    }

    fn tay(&mut self)
        ensures
            *final(self) == set_y(*old(self), old(self).a),
    {
        self.y = self.a;
        self.set_nz(self.y);
    }

    fn txa(&mut self)
        ensures
            *final(self) == set_a(*old(self), old(self).x),
    {
        self.a = self.x;
        self.set_nz(self.a);
    }

    fn tya(&mut self)
        ensures
            *final(self) == set_a(*old(self), old(self).y),
    {
        self.a = self.y;
        self.set_nz(self.a);
    }

    fn tsx(&mut self)
        ensures
            *final(self) == set_x(*old(self), old(self).s),
    {
        self.x = self.s;
        self.set_nz(self.x);
    }

    fn txs(&mut self)
        ensures
            *final(self) == (Processor { s: old(self).x, ..*old(self) }),
    {
        self.s = self.x;
    }

    // Stack instructions.
    fn pha(&mut self, mem: &mut Memory)
        ensures
            (*final(self), final(mem)@) == push(*old(self), old(mem)@, old(self).a),
    {
        self.push(mem, self.a);
    }

    /// Pushes the status byte with B and U set.
    fn php(&mut self, mem: &mut Memory)
        ensures
            (*final(self), final(mem)@) == push(
                *old(self),
                old(mem)@,
                old(self).status.spec_byte() | FLAG_B,
            ),
    {
        let b = self.status.byte() | FLAG_B;
        self.push(mem, b);
    }

    fn pla(&mut self, mem: &Memory)
        ensures
            *final(self) == set_a(pull(*old(self), mem@).0, pull(*old(self), mem@).1),
    {
        let v = self.pull(mem);
        self.a = v;
        self.set_nz(v);
    }

    /// Pulls the status byte; its B and U bits are not stored.
    fn plp(&mut self, mem: &Memory)
        ensures
            *final(self) == (Processor {
                status: Status::spec_from_byte(pull(*old(self), mem@).1),
                ..pull(*old(self), mem@).0
            }),
    {
        let v = self.pull(mem);
        self.status = Status::from_byte(v);
    }

    // Increments and decrements of X and Y.
    fn inx(&mut self)
        ensures
            *final(self) == set_x(*old(self), old(self).x.wrapping_add(1)),
    {
        self.x = self.x.wrapping_add(1);
        self.set_nz(self.x);
    }

    fn iny(&mut self)
        ensures
            *final(self) == set_y(*old(self), old(self).y.wrapping_add(1)),
    {
        self.y = self.y.wrapping_add(1);
        self.set_nz(self.y);
    }

    fn dex(&mut self)
        ensures
            *final(self) == set_x(*old(self), old(self).x.wrapping_sub(1)),
    {
        self.x = self.x.wrapping_sub(1);
        self.set_nz(self.x);
    }

    fn dey(&mut self)
        ensures
            *final(self) == set_y(*old(self), old(self).y.wrapping_sub(1)),
    {
        self.y = self.y.wrapping_sub(1);
        self.set_nz(self.y);
    }

    // Shifts and rotates of the accumulator.
    fn asl(&mut self)
        ensures
            *final(self) == shifted_a(*old(self), asl(old(self).a)),
    {
        let (r, c) = shift_left(self.a);
        self.setc(c);
        self.a = r;
        self.set_nz(r);
    }

    fn lsr(&mut self)
        ensures
            *final(self) == shifted_a(*old(self), lsr(old(self).a)),
    {
        let (r, c) = shift_right(self.a);
        self.setc(c);
        self.a = r;
        self.set_nz(r);
    }

    fn rol(&mut self)
        ensures
            *final(self) == shifted_a(*old(self), rol(old(self).a, old(self).status.c)),
    {
        let (r, c) = rotate_left(self.a, self.status.c);
        self.setc(c);
        self.a = r;
        self.set_nz(r);
    }

    fn ror(&mut self)
        ensures
            *final(self) == shifted_a(*old(self), ror(old(self).a, old(self).status.c)),
    {
        let (r, c) = rotate_right(self.a, self.status.c);
        self.setc(c);
        self.a = r;
        self.set_nz(r);
    }

    // Jumps and subroutines.
    fn jmp_abs(&mut self, mem: &Memory)
        ensures
            (*final(self), mem@) == execute(Operation::Jmp, Mode::Absolute, *old(self), mem@),
    {
        self.pc = self.abs(mem);
    }

    fn jmp_ind(&mut self, mem: &Memory)
        ensures
            (*final(self), mem@) == execute(Operation::Jmp, Mode::Indirect, *old(self), mem@),
    {
        self.pc = self.ind(mem);
    }

    /// Pushes the address of the last operand byte, high byte first, then jumps.
    fn jsr(&mut self, mem: &mut Memory)
        ensures
            (*final(self), final(mem)@) == execute(
                Operation::Jsr,
                Mode::Absolute,
                *old(self),
                old(mem)@,
            ),
    {
        let addr = self.abs(mem);
        let ret = self.pc.wrapping_sub(1);
        self.push(mem, (ret / 256) as u8);
        self.push(mem, (ret % 256) as u8);
        self.pc = addr;
    }

    /// Pulls the return address, low byte first, and resumes one past it.
    fn rts(&mut self, mem: &Memory)
        ensures
            (*final(self), mem@) == execute(Operation::Rts, Mode::Implied, *old(self), mem@),
    {
        let lo = self.pull(mem);
        let hi = self.pull(mem);
        self.pc = make_word(lo, hi).wrapping_add(1);
    }

    // Branches.
    fn bcs(&mut self, mem: &Memory)
        requires
            old(self).cycles <= 0xFF,
        ensures
            (*final(self), mem@) == execute(Operation::Bcs, Mode::Relative, *old(self), mem@),
    {
        let target = self.rel(mem);
        let taken = self.status.c;
        self.branch(taken, target);
    }

    fn bcc(&mut self, mem: &Memory)
        requires
            old(self).cycles <= 0xFF,
        ensures
            (*final(self), mem@) == execute(Operation::Bcc, Mode::Relative, *old(self), mem@),
    {
        let target = self.rel(mem);
        let taken = !self.status.c;
        self.branch(taken, target);
    }

    fn beq(&mut self, mem: &Memory)
        requires
            old(self).cycles <= 0xFF,
        ensures
            (*final(self), mem@) == execute(Operation::Beq, Mode::Relative, *old(self), mem@),
    {
        let target = self.rel(mem);
        let taken = self.status.z;
        self.branch(taken, target);
    }

    fn bne(&mut self, mem: &Memory)
        requires
            old(self).cycles <= 0xFF,
        ensures
            (*final(self), mem@) == execute(Operation::Bne, Mode::Relative, *old(self), mem@),
    {
        let target = self.rel(mem);
        let taken = !self.status.z;
        self.branch(taken, target);
    }

    fn bmi(&mut self, mem: &Memory)
        requires
            old(self).cycles <= 0xFF,
        ensures
            (*final(self), mem@) == execute(Operation::Bmi, Mode::Relative, *old(self), mem@),
    {
        let target = self.rel(mem);
        let taken = self.status.n;
        self.branch(taken, target);
    }

    fn bpl(&mut self, mem: &Memory)
        requires
            old(self).cycles <= 0xFF,
        ensures
            (*final(self), mem@) == execute(Operation::Bpl, Mode::Relative, *old(self), mem@),
    {
        let target = self.rel(mem);
        let taken = !self.status.n;
        self.branch(taken, target);
    }

    fn bvs(&mut self, mem: &Memory)
        requires
            old(self).cycles <= 0xFF,
        ensures
            (*final(self), mem@) == execute(Operation::Bvs, Mode::Relative, *old(self), mem@),
    {
        let target = self.rel(mem);
        let taken = self.status.v;
        self.branch(taken, target);
    }

    fn bvc(&mut self, mem: &Memory)
        requires
            old(self).cycles <= 0xFF,
        ensures
            (*final(self), mem@) == execute(Operation::Bvc, Mode::Relative, *old(self), mem@),
    {
        let target = self.rel(mem);
        let taken = !self.status.v;
        self.branch(taken, target);
    }

    // Flag instructions.
    fn clc(&mut self)
        ensures
            *final(self) == (Processor { status: Status { c: false, ..old(self).status }, ..*old(self) }),
    {
        self.setc(false);
    }

    fn cld(&mut self)
        ensures
            *final(self) == (Processor { status: Status { d: false, ..old(self).status }, ..*old(self) }),
    {
        self.status.d = false;
    }

    fn cli(&mut self)
        ensures
            *final(self) == (Processor { status: Status { i: false, ..old(self).status }, ..*old(self) }),
    {
        self.status.i = false;
    }

    fn clv(&mut self)
        ensures
            *final(self) == (Processor { status: Status { v: false, ..old(self).status }, ..*old(self) }),
    {
        self.setv(false);
    }

    fn sec(&mut self)
        ensures
            *final(self) == (Processor { status: Status { c: true, ..old(self).status }, ..*old(self) }),
    {
        self.setc(true);
    }

    fn sed(&mut self)
        ensures
            *final(self) == (Processor { status: Status { d: true, ..old(self).status }, ..*old(self) }),
    {
        self.status.d = true;
    }

    fn sei(&mut self)
        ensures
            *final(self) == (Processor { status: Status { i: true, ..old(self).status }, ..*old(self) }),
    {
        self.status.i = true;
    }

    // Interrupt instructions.
    /// Skips the padding byte, pushes PC high then low, pushes the status
    /// byte with B and U set, then sets I.
    fn brk(&mut self, mem: &mut Memory)
        ensures
            (*final(self), final(mem)@) == execute(
                Operation::Brk,
                Mode::Implied,
                *old(self),
                old(mem)@,
            ),
    {
        self.pc = self.pc.wrapping_add(1);
        let ret = self.pc;
        self.push(mem, (ret / 256) as u8);
        self.push(mem, (ret % 256) as u8);
        let b = self.status.byte() | FLAG_B;
        self.push(mem, b);
        self.status.i = true;
    }

    /// Pulls the status byte, then PC low and high; no adjustment of PC.
    fn rti(&mut self, mem: &Memory)
        ensures
            (*final(self), mem@) == execute(Operation::Rti, Mode::Implied, *old(self), mem@),
    {
        let p = self.pull(mem);
        self.status = Status::from_byte(p);
        let lo = self.pull(mem);
        let hi = self.pull(mem);
        self.pc = make_word(lo, hi);
    }

    // One method for each opcode that pairs an addressing mode with an operation.

    fn lda_imm(&mut self, mem: &Memory)
        requires
            old(self).cycles <= 0xFF,
        ensures
            (*final(self), mem@) == execute(Operation::Lda, Mode::Immediate, *old(self), mem@),
    {
        let addr = self.imm();
        self.lda(mem, addr);
    }

    fn lda_zp(&mut self, mem: &Memory)
        requires
            old(self).cycles <= 0xFF,
        ensures
            (*final(self), mem@) == execute(Operation::Lda, Mode::ZeroPage, *old(self), mem@),
    {
        let addr = self.zp(mem);
        self.lda(mem, addr);
    }

    fn lda_zpx(&mut self, mem: &Memory)
        requires
            old(self).cycles <= 0xFF,
        ensures
            (*final(self), mem@) == execute(Operation::Lda, Mode::ZeroPageX, *old(self), mem@),
    {
        let addr = self.zpx(mem);
        self.lda(mem, addr);
    }

    fn lda_abs(&mut self, mem: &Memory)
        requires
            old(self).cycles <= 0xFF,
        ensures
            (*final(self), mem@) == execute(Operation::Lda, Mode::Absolute, *old(self), mem@),
    {
        let addr = self.abs(mem);
        self.lda(mem, addr);
    }

    fn lda_absx(&mut self, mem: &Memory)
        requires
            old(self).cycles <= 0xFF,
        ensures
            (*final(self), mem@) == execute(Operation::Lda, Mode::AbsoluteXRead, *old(self), mem@),
    {
        let addr = self.absx(mem);
        self.lda(mem, addr);
    }

    fn lda_absy(&mut self, mem: &Memory)
        requires
            old(self).cycles <= 0xFF,
        ensures
            (*final(self), mem@) == execute(Operation::Lda, Mode::AbsoluteYRead, *old(self), mem@),
    {
        let addr = self.absy(mem);
        self.lda(mem, addr);
    }

    fn lda_indx(&mut self, mem: &Memory)
        requires
            old(self).cycles <= 0xFF,
        ensures
            (*final(self), mem@) == execute(Operation::Lda, Mode::IndirectX, *old(self), mem@),
    {
        let addr = self.indx(mem);
        self.lda(mem, addr);
    }

    fn lda_indy(&mut self, mem: &Memory)
        requires
            old(self).cycles <= 0xFF,
        ensures
            (*final(self), mem@) == execute(Operation::Lda, Mode::IndirectYRead, *old(self), mem@),
    {
        let addr = self.indy(mem);
        self.lda(mem, addr);
    }

    fn ldx_imm(&mut self, mem: &Memory)
        requires
            old(self).cycles <= 0xFF,
        ensures
            (*final(self), mem@) == execute(Operation::Ldx, Mode::Immediate, *old(self), mem@),
    {
        let addr = self.imm();
        self.ldx(mem, addr);
    }

    fn ldx_zp(&mut self, mem: &Memory)
        requires
            old(self).cycles <= 0xFF,
        ensures
            (*final(self), mem@) == execute(Operation::Ldx, Mode::ZeroPage, *old(self), mem@),
    {
        let addr = self.zp(mem);
        self.ldx(mem, addr);
    }

    fn ldx_zpy(&mut self, mem: &Memory)
        requires
            old(self).cycles <= 0xFF,
        ensures
            (*final(self), mem@) == execute(Operation::Ldx, Mode::ZeroPageY, *old(self), mem@),
    {
        let addr = self.zpy(mem);
        self.ldx(mem, addr);
    }

    fn ldx_abs(&mut self, mem: &Memory)
        requires
            old(self).cycles <= 0xFF,
        ensures
            (*final(self), mem@) == execute(Operation::Ldx, Mode::Absolute, *old(self), mem@),
    {
        let addr = self.abs(mem);
        self.ldx(mem, addr);
    }

    fn ldx_absy(&mut self, mem: &Memory)
        requires
            old(self).cycles <= 0xFF,
        ensures
            (*final(self), mem@) == execute(Operation::Ldx, Mode::AbsoluteYRead, *old(self), mem@),
    {
        let addr = self.absy(mem);
        self.ldx(mem, addr);
    }

    fn ldy_imm(&mut self, mem: &Memory)
        requires
            old(self).cycles <= 0xFF,
        ensures
            (*final(self), mem@) == execute(Operation::Ldy, Mode::Immediate, *old(self), mem@),
    {
        let addr = self.imm();
        self.ldy(mem, addr);
    }

    fn ldy_zp(&mut self, mem: &Memory)
        requires
            old(self).cycles <= 0xFF,
        ensures
            (*final(self), mem@) == execute(Operation::Ldy, Mode::ZeroPage, *old(self), mem@),
    {
        let addr = self.zp(mem);
        self.ldy(mem, addr);
    }

    fn ldy_zpx(&mut self, mem: &Memory)
        requires
            old(self).cycles <= 0xFF,
        ensures
            (*final(self), mem@) == execute(Operation::Ldy, Mode::ZeroPageX, *old(self), mem@),
    {
        let addr = self.zpx(mem);
        self.ldy(mem, addr);
    }

    fn ldy_abs(&mut self, mem: &Memory)
        requires
            old(self).cycles <= 0xFF,
        ensures
            (*final(self), mem@) == execute(Operation::Ldy, Mode::Absolute, *old(self), mem@),
    {
        let addr = self.abs(mem);
        self.ldy(mem, addr);
    }

    fn ldy_absx(&mut self, mem: &Memory)
        requires
            old(self).cycles <= 0xFF,
        ensures
            (*final(self), mem@) == execute(Operation::Ldy, Mode::AbsoluteXRead, *old(self), mem@),
    {
        let addr = self.absx(mem);
        self.ldy(mem, addr);
    }

    fn sta_zp(&mut self, mem: &mut Memory)
        requires
            old(self).cycles <= 0xFF,
        ensures
            (*final(self), final(mem)@) == execute(Operation::Sta, Mode::ZeroPage, *old(self), old(mem)@),
    {
        let addr = self.zp(mem);
        self.sta(mem, addr);
    }

    fn sta_zpx(&mut self, mem: &mut Memory)
        requires
            old(self).cycles <= 0xFF,
        ensures
            (*final(self), final(mem)@) == execute(Operation::Sta, Mode::ZeroPageX, *old(self), old(mem)@),
    {
        let addr = self.zpx(mem);
        self.sta(mem, addr);
    }

    fn sta_abs(&mut self, mem: &mut Memory)
        requires
            old(self).cycles <= 0xFF,
        ensures
            (*final(self), final(mem)@) == execute(Operation::Sta, Mode::Absolute, *old(self), old(mem)@),
    {
        let addr = self.abs(mem);
        self.sta(mem, addr);
    }

    fn sta_absx(&mut self, mem: &mut Memory)
        requires
            old(self).cycles <= 0xFF,
        ensures
            (*final(self), final(mem)@) == execute(Operation::Sta, Mode::AbsoluteX, *old(self), old(mem)@),
    {
        let addr = self.absx_ro(mem);
        self.sta(mem, addr);
    }

    fn sta_absy(&mut self, mem: &mut Memory)
        requires
            old(self).cycles <= 0xFF,
        ensures
            (*final(self), final(mem)@) == execute(Operation::Sta, Mode::AbsoluteY, *old(self), old(mem)@),
    {
        let addr = self.absy_ro(mem);
        self.sta(mem, addr);
    }

    fn sta_indx(&mut self, mem: &mut Memory)
        requires
            old(self).cycles <= 0xFF,
        ensures
            (*final(self), final(mem)@) == execute(Operation::Sta, Mode::IndirectX, *old(self), old(mem)@),
    {
        let addr = self.indx(mem);
        self.sta(mem, addr);
    }

    fn sta_indy(&mut self, mem: &mut Memory)
        requires
            old(self).cycles <= 0xFF,
        ensures
            (*final(self), final(mem)@) == execute(Operation::Sta, Mode::IndirectY, *old(self), old(mem)@),
    {
        let addr = self.indy_ro(mem);
        self.sta(mem, addr);
    }

    fn stx_zp(&mut self, mem: &mut Memory)
        requires
            old(self).cycles <= 0xFF,
        ensures
            (*final(self), final(mem)@) == execute(Operation::Stx, Mode::ZeroPage, *old(self), old(mem)@),
    {
        let addr = self.zp(mem);
        self.stx(mem, addr);
    }

    fn stx_zpy(&mut self, mem: &mut Memory)
        requires
            old(self).cycles <= 0xFF,
        ensures
            (*final(self), final(mem)@) == execute(Operation::Stx, Mode::ZeroPageY, *old(self), old(mem)@),
    {
        let addr = self.zpy(mem);
        self.stx(mem, addr);
    }

    fn stx_abs(&mut self, mem: &mut Memory)
        requires
            old(self).cycles <= 0xFF,
        ensures
            (*final(self), final(mem)@) == execute(Operation::Stx, Mode::Absolute, *old(self), old(mem)@),
    {
        let addr = self.abs(mem);
        self.stx(mem, addr);
    }

    fn sty_zp(&mut self, mem: &mut Memory)
        requires
            old(self).cycles <= 0xFF,
        ensures
            (*final(self), final(mem)@) == execute(Operation::Sty, Mode::ZeroPage, *old(self), old(mem)@),
    {
        let addr = self.zp(mem);
        self.sty(mem, addr);
    }

    fn sty_zpx(&mut self, mem: &mut Memory)
        requires
            old(self).cycles <= 0xFF,
        ensures
            (*final(self), final(mem)@) == execute(Operation::Sty, Mode::ZeroPageX, *old(self), old(mem)@),
    {
        let addr = self.zpx(mem);
        self.sty(mem, addr);
    }

    fn sty_abs(&mut self, mem: &mut Memory)
        requires
            old(self).cycles <= 0xFF,
        ensures
            (*final(self), final(mem)@) == execute(Operation::Sty, Mode::Absolute, *old(self), old(mem)@),
    {
        let addr = self.abs(mem);
        self.sty(mem, addr);
    }

    fn ora_imm(&mut self, mem: &Memory)
        requires
            old(self).cycles <= 0xFF,
        ensures
            (*final(self), mem@) == execute(Operation::Ora, Mode::Immediate, *old(self), mem@),
    {
        let addr = self.imm();
        self.ora(mem, addr);
    }

    fn ora_zp(&mut self, mem: &Memory)
        requires
            old(self).cycles <= 0xFF,
        ensures
            (*final(self), mem@) == execute(Operation::Ora, Mode::ZeroPage, *old(self), mem@),
    {
        let addr = self.zp(mem);
        self.ora(mem, addr);
    }

    fn ora_zpx(&mut self, mem: &Memory)
        requires
            old(self).cycles <= 0xFF,
        ensures
            (*final(self), mem@) == execute(Operation::Ora, Mode::ZeroPageX, *old(self), mem@),
    {
        let addr = self.zpx(mem);
        self.ora(mem, addr);
    }

    fn ora_abs(&mut self, mem: &Memory)
        requires
            old(self).cycles <= 0xFF,
        ensures
            (*final(self), mem@) == execute(Operation::Ora, Mode::Absolute, *old(self), mem@),
    {
        let addr = self.abs(mem);
        self.ora(mem, addr);
    }

    fn ora_absx(&mut self, mem: &Memory)
        requires
            old(self).cycles <= 0xFF,
        ensures
            (*final(self), mem@) == execute(Operation::Ora, Mode::AbsoluteXRead, *old(self), mem@),
    {
        let addr = self.absx(mem);
        self.ora(mem, addr);
    }

    fn ora_absy(&mut self, mem: &Memory)
        requires
            old(self).cycles <= 0xFF,
        ensures
            (*final(self), mem@) == execute(Operation::Ora, Mode::AbsoluteYRead, *old(self), mem@),
    {
        let addr = self.absy(mem);
        self.ora(mem, addr);
    }

    fn ora_indx(&mut self, mem: &Memory)
        requires
            old(self).cycles <= 0xFF,
        ensures
            (*final(self), mem@) == execute(Operation::Ora, Mode::IndirectX, *old(self), mem@),
    {
        let addr = self.indx(mem);
        self.ora(mem, addr);
    }

    fn ora_indy(&mut self, mem: &Memory)
        requires
            old(self).cycles <= 0xFF,
        ensures
            (*final(self), mem@) == execute(Operation::Ora, Mode::IndirectYRead, *old(self), mem@),
    {
        let addr = self.indy(mem);
        self.ora(mem, addr);
    }

    fn and_imm(&mut self, mem: &Memory)
        requires
            old(self).cycles <= 0xFF,
        ensures
            (*final(self), mem@) == execute(Operation::And, Mode::Immediate, *old(self), mem@),
    {
        let addr = self.imm();
        self.and(mem, addr);
    }

    fn and_zp(&mut self, mem: &Memory)
        requires
            old(self).cycles <= 0xFF,
        ensures
            (*final(self), mem@) == execute(Operation::And, Mode::ZeroPage, *old(self), mem@),
    {
        let addr = self.zp(mem);
        self.and(mem, addr);
    }

    fn and_zpx(&mut self, mem: &Memory)
        requires
            old(self).cycles <= 0xFF,
        ensures
            (*final(self), mem@) == execute(Operation::And, Mode::ZeroPageX, *old(self), mem@),
    {
        let addr = self.zpx(mem);
        self.and(mem, addr);
    }

    fn and_abs(&mut self, mem: &Memory)
        requires
            old(self).cycles <= 0xFF,
        ensures
            (*final(self), mem@) == execute(Operation::And, Mode::Absolute, *old(self), mem@),
    {
        let addr = self.abs(mem);
        self.and(mem, addr);
    }

    fn and_absx(&mut self, mem: &Memory)
        requires
            old(self).cycles <= 0xFF,
        ensures
            (*final(self), mem@) == execute(Operation::And, Mode::AbsoluteXRead, *old(self), mem@),
    {
        let addr = self.absx(mem);
        self.and(mem, addr);
    }

    fn and_absy(&mut self, mem: &Memory)
        requires
            old(self).cycles <= 0xFF,
        ensures
            (*final(self), mem@) == execute(Operation::And, Mode::AbsoluteYRead, *old(self), mem@),
    {
        let addr = self.absy(mem);
        self.and(mem, addr);
    }

    fn and_indx(&mut self, mem: &Memory)
        requires
            old(self).cycles <= 0xFF,
        ensures
            (*final(self), mem@) == execute(Operation::And, Mode::IndirectX, *old(self), mem@),
    {
        let addr = self.indx(mem);
        self.and(mem, addr);
    }

    fn and_indy(&mut self, mem: &Memory)
        requires
            old(self).cycles <= 0xFF,
        ensures
            (*final(self), mem@) == execute(Operation::And, Mode::IndirectYRead, *old(self), mem@),
    {
        let addr = self.indy(mem);
        self.and(mem, addr);
    }

    fn eor_imm(&mut self, mem: &Memory)
        requires
            old(self).cycles <= 0xFF,
        ensures
            (*final(self), mem@) == execute(Operation::Eor, Mode::Immediate, *old(self), mem@),
    {
        let addr = self.imm();
        self.eor(mem, addr);
    }

    fn eor_zp(&mut self, mem: &Memory)
        requires
            old(self).cycles <= 0xFF,
        ensures
            (*final(self), mem@) == execute(Operation::Eor, Mode::ZeroPage, *old(self), mem@),
    {
        let addr = self.zp(mem);
        self.eor(mem, addr);
    }

    fn eor_zpx(&mut self, mem: &Memory)
        requires
            old(self).cycles <= 0xFF,
        ensures
            (*final(self), mem@) == execute(Operation::Eor, Mode::ZeroPageX, *old(self), mem@),
    {
        let addr = self.zpx(mem);
        self.eor(mem, addr);
    }

    fn eor_abs(&mut self, mem: &Memory)
        requires
            old(self).cycles <= 0xFF,
        ensures
            (*final(self), mem@) == execute(Operation::Eor, Mode::Absolute, *old(self), mem@),
    {
        let addr = self.abs(mem);
        self.eor(mem, addr);
    }

    fn eor_absx(&mut self, mem: &Memory)
        requires
            old(self).cycles <= 0xFF,
        ensures
            (*final(self), mem@) == execute(Operation::Eor, Mode::AbsoluteXRead, *old(self), mem@),
    {
        let addr = self.absx(mem);
        self.eor(mem, addr);
    }

    fn eor_absy(&mut self, mem: &Memory)
        requires
            old(self).cycles <= 0xFF,
        ensures
            (*final(self), mem@) == execute(Operation::Eor, Mode::AbsoluteYRead, *old(self), mem@),
    {
        let addr = self.absy(mem);
        self.eor(mem, addr);
    }

    fn eor_indx(&mut self, mem: &Memory)
        requires
            old(self).cycles <= 0xFF,
        ensures
            (*final(self), mem@) == execute(Operation::Eor, Mode::IndirectX, *old(self), mem@),
    {
        let addr = self.indx(mem);
        self.eor(mem, addr);
    }

    fn eor_indy(&mut self, mem: &Memory)
        requires
            old(self).cycles <= 0xFF,
        ensures
            (*final(self), mem@) == execute(Operation::Eor, Mode::IndirectYRead, *old(self), mem@),
    {
        let addr = self.indy(mem);
        self.eor(mem, addr);
    }

    fn bit_zp(&mut self, mem: &Memory)
        requires
            old(self).cycles <= 0xFF,
        ensures
            (*final(self), mem@) == execute(Operation::Bit, Mode::ZeroPage, *old(self), mem@),
    {
        let addr = self.zp(mem);
        self.bit(mem, addr);
    }

    fn bit_abs(&mut self, mem: &Memory)
        requires
            old(self).cycles <= 0xFF,
        ensures
            (*final(self), mem@) == execute(Operation::Bit, Mode::Absolute, *old(self), mem@),
    {
        let addr = self.abs(mem);
        self.bit(mem, addr);
    }

    fn adc_imm(&mut self, mem: &Memory)
        requires
            old(self).cycles <= 0xFF,
        ensures
            (*final(self), mem@) == execute(Operation::Adc, Mode::Immediate, *old(self), mem@),
    {
        let addr = self.imm();
        self.adc(mem, addr);
    }

    fn adc_zp(&mut self, mem: &Memory)
        requires
            old(self).cycles <= 0xFF,
        ensures
            (*final(self), mem@) == execute(Operation::Adc, Mode::ZeroPage, *old(self), mem@),
    {
        let addr = self.zp(mem);
        self.adc(mem, addr);
    }

    fn adc_zpx(&mut self, mem: &Memory)
        requires
            old(self).cycles <= 0xFF,
        ensures
            (*final(self), mem@) == execute(Operation::Adc, Mode::ZeroPageX, *old(self), mem@),
    {
        let addr = self.zpx(mem);
        self.adc(mem, addr);
    }

    fn adc_abs(&mut self, mem: &Memory)
        requires
            old(self).cycles <= 0xFF,
        ensures
            (*final(self), mem@) == execute(Operation::Adc, Mode::Absolute, *old(self), mem@),
    {
        let addr = self.abs(mem);
        self.adc(mem, addr);
    }

    fn adc_absx(&mut self, mem: &Memory)
        requires
            old(self).cycles <= 0xFF,
        ensures
            (*final(self), mem@) == execute(Operation::Adc, Mode::AbsoluteXRead, *old(self), mem@),
    {
        let addr = self.absx(mem);
        self.adc(mem, addr);
    }

    fn adc_absy(&mut self, mem: &Memory)
        requires
            old(self).cycles <= 0xFF,
        ensures
            (*final(self), mem@) == execute(Operation::Adc, Mode::AbsoluteYRead, *old(self), mem@),
    {
        let addr = self.absy(mem);
        self.adc(mem, addr);
    }

    fn adc_indx(&mut self, mem: &Memory)
        requires
            old(self).cycles <= 0xFF,
        ensures
            (*final(self), mem@) == execute(Operation::Adc, Mode::IndirectX, *old(self), mem@),
    {
        let addr = self.indx(mem);
        self.adc(mem, addr);
    }

    fn adc_indy(&mut self, mem: &Memory)
        requires
            old(self).cycles <= 0xFF,
        ensures
            (*final(self), mem@) == execute(Operation::Adc, Mode::IndirectYRead, *old(self), mem@),
    {
        let addr = self.indy(mem);
        self.adc(mem, addr);
    }

    fn sbc_imm(&mut self, mem: &Memory)
        requires
            old(self).cycles <= 0xFF,
        ensures
            (*final(self), mem@) == execute(Operation::Sbc, Mode::Immediate, *old(self), mem@),
    {
        let addr = self.imm();
        self.sbc(mem, addr);
    }

    fn sbc_zp(&mut self, mem: &Memory)
        requires
            old(self).cycles <= 0xFF,
        ensures
            (*final(self), mem@) == execute(Operation::Sbc, Mode::ZeroPage, *old(self), mem@),
    {
        let addr = self.zp(mem);
        self.sbc(mem, addr);
    }

    fn sbc_zpx(&mut self, mem: &Memory)
        requires
            old(self).cycles <= 0xFF,
        ensures
            (*final(self), mem@) == execute(Operation::Sbc, Mode::ZeroPageX, *old(self), mem@),
    {
        let addr = self.zpx(mem);
        self.sbc(mem, addr);
    }

    fn sbc_abs(&mut self, mem: &Memory)
        requires
            old(self).cycles <= 0xFF,
        ensures
            (*final(self), mem@) == execute(Operation::Sbc, Mode::Absolute, *old(self), mem@),
    {
        let addr = self.abs(mem);
        self.sbc(mem, addr);
    }

    fn sbc_absx(&mut self, mem: &Memory)
        requires
            old(self).cycles <= 0xFF,
        ensures
            (*final(self), mem@) == execute(Operation::Sbc, Mode::AbsoluteXRead, *old(self), mem@),
    {
        let addr = self.absx(mem);
        self.sbc(mem, addr);
    }

    fn sbc_absy(&mut self, mem: &Memory)
        requires
            old(self).cycles <= 0xFF,
        ensures
            (*final(self), mem@) == execute(Operation::Sbc, Mode::AbsoluteYRead, *old(self), mem@),
    {
        let addr = self.absy(mem);
        self.sbc(mem, addr);
    }

    fn sbc_indx(&mut self, mem: &Memory)
        requires
            old(self).cycles <= 0xFF,
        ensures
            (*final(self), mem@) == execute(Operation::Sbc, Mode::IndirectX, *old(self), mem@),
    {
        let addr = self.indx(mem);
        self.sbc(mem, addr);
    }

    fn sbc_indy(&mut self, mem: &Memory)
        requires
            old(self).cycles <= 0xFF,
        ensures
            (*final(self), mem@) == execute(Operation::Sbc, Mode::IndirectYRead, *old(self), mem@),
    {
        let addr = self.indy(mem);
        self.sbc(mem, addr);
    }

    fn cmp_imm(&mut self, mem: &Memory)
        requires
            old(self).cycles <= 0xFF,
        ensures
            (*final(self), mem@) == execute(Operation::Cmp, Mode::Immediate, *old(self), mem@),
    {
        let addr = self.imm();
        self.cmp(mem, addr);
    }

    fn cmp_zp(&mut self, mem: &Memory)
        requires
            old(self).cycles <= 0xFF,
        ensures
            (*final(self), mem@) == execute(Operation::Cmp, Mode::ZeroPage, *old(self), mem@),
    {
        let addr = self.zp(mem);
        self.cmp(mem, addr);
    }

    fn cmp_zpx(&mut self, mem: &Memory)
        requires
            old(self).cycles <= 0xFF,
        ensures
            (*final(self), mem@) == execute(Operation::Cmp, Mode::ZeroPageX, *old(self), mem@),
    {
        let addr = self.zpx(mem);
        self.cmp(mem, addr);
    }

    fn cmp_abs(&mut self, mem: &Memory)
        requires
            old(self).cycles <= 0xFF,
        ensures
            (*final(self), mem@) == execute(Operation::Cmp, Mode::Absolute, *old(self), mem@),
    {
        let addr = self.abs(mem);
        self.cmp(mem, addr);
    }

    fn cmp_absx(&mut self, mem: &Memory)
        requires
            old(self).cycles <= 0xFF,
        ensures
            (*final(self), mem@) == execute(Operation::Cmp, Mode::AbsoluteXRead, *old(self), mem@),
    {
        let addr = self.absx(mem);
        self.cmp(mem, addr);
    }

    fn cmp_absy(&mut self, mem: &Memory)
        requires
            old(self).cycles <= 0xFF,
        ensures
            (*final(self), mem@) == execute(Operation::Cmp, Mode::AbsoluteYRead, *old(self), mem@),
    {
        let addr = self.absy(mem);
        self.cmp(mem, addr);
    }

    fn cmp_indx(&mut self, mem: &Memory)
        requires
            old(self).cycles <= 0xFF,
        ensures
            (*final(self), mem@) == execute(Operation::Cmp, Mode::IndirectX, *old(self), mem@),
    {
        let addr = self.indx(mem);
        self.cmp(mem, addr);
    }

    fn cmp_indy(&mut self, mem: &Memory)
        requires
            old(self).cycles <= 0xFF,
        ensures
            (*final(self), mem@) == execute(Operation::Cmp, Mode::IndirectYRead, *old(self), mem@),
    {
        let addr = self.indy(mem);
        self.cmp(mem, addr);
    }

    fn cpx_imm(&mut self, mem: &Memory)
        requires
            old(self).cycles <= 0xFF,
        ensures
            (*final(self), mem@) == execute(Operation::Cpx, Mode::Immediate, *old(self), mem@),
    {
        let addr = self.imm();
        self.cpx(mem, addr);
    }

    fn cpx_zp(&mut self, mem: &Memory)
        requires
            old(self).cycles <= 0xFF,
        ensures
            (*final(self), mem@) == execute(Operation::Cpx, Mode::ZeroPage, *old(self), mem@),
    {
        let addr = self.zp(mem);
        self.cpx(mem, addr);
    }

    fn cpx_abs(&mut self, mem: &Memory)
        requires
            old(self).cycles <= 0xFF,
        ensures
            (*final(self), mem@) == execute(Operation::Cpx, Mode::Absolute, *old(self), mem@),
    {
        let addr = self.abs(mem);
        self.cpx(mem, addr);
    }

    fn cpy_imm(&mut self, mem: &Memory)
        requires
            old(self).cycles <= 0xFF,
        ensures
            (*final(self), mem@) == execute(Operation::Cpy, Mode::Immediate, *old(self), mem@),
    {
        let addr = self.imm();
        self.cpy(mem, addr);
    }

    fn cpy_zp(&mut self, mem: &Memory)
        requires
            old(self).cycles <= 0xFF,
        ensures
            (*final(self), mem@) == execute(Operation::Cpy, Mode::ZeroPage, *old(self), mem@),
    {
        let addr = self.zp(mem);
        self.cpy(mem, addr);
    }

    fn cpy_abs(&mut self, mem: &Memory)
        requires
            old(self).cycles <= 0xFF,
        ensures
            (*final(self), mem@) == execute(Operation::Cpy, Mode::Absolute, *old(self), mem@),
    {
        let addr = self.abs(mem);
        self.cpy(mem, addr);
    }

    fn inc_zp(&mut self, mem: &mut Memory)
        requires
            old(self).cycles <= 0xFF,
        ensures
            (*final(self), final(mem)@) == execute(Operation::Inc, Mode::ZeroPage, *old(self), old(mem)@),
    {
        let addr = self.zp(mem);
        self.inc(mem, addr);
    }

    fn inc_zpx(&mut self, mem: &mut Memory)
        requires
            old(self).cycles <= 0xFF,
        ensures
            (*final(self), final(mem)@) == execute(Operation::Inc, Mode::ZeroPageX, *old(self), old(mem)@),
    {
        let addr = self.zpx(mem);
        self.inc(mem, addr);
    }

    fn inc_abs(&mut self, mem: &mut Memory)
        requires
            old(self).cycles <= 0xFF,
        ensures
            (*final(self), final(mem)@) == execute(Operation::Inc, Mode::Absolute, *old(self), old(mem)@),
    {
        let addr = self.abs(mem);
        self.inc(mem, addr);
    }

    fn inc_absx(&mut self, mem: &mut Memory)
        requires
            old(self).cycles <= 0xFF,
        ensures
            (*final(self), final(mem)@) == execute(Operation::Inc, Mode::AbsoluteX, *old(self), old(mem)@),
    {
        let addr = self.absx_ro(mem);
        self.inc(mem, addr);
    }

    fn dec_zp(&mut self, mem: &mut Memory)
        requires
            old(self).cycles <= 0xFF,
        ensures
            (*final(self), final(mem)@) == execute(Operation::Dec, Mode::ZeroPage, *old(self), old(mem)@),
    {
        let addr = self.zp(mem);
        self.dec(mem, addr);
    }

    fn dec_zpx(&mut self, mem: &mut Memory)
        requires
            old(self).cycles <= 0xFF,
        ensures
            (*final(self), final(mem)@) == execute(Operation::Dec, Mode::ZeroPageX, *old(self), old(mem)@),
    {
        let addr = self.zpx(mem);
        self.dec(mem, addr);
    }

    fn dec_abs(&mut self, mem: &mut Memory)
        requires
            old(self).cycles <= 0xFF,
        ensures
            (*final(self), final(mem)@) == execute(Operation::Dec, Mode::Absolute, *old(self), old(mem)@),
    {
        let addr = self.abs(mem);
        self.dec(mem, addr);
    }

    fn dec_absx(&mut self, mem: &mut Memory)
        requires
            old(self).cycles <= 0xFF,
        ensures
            (*final(self), final(mem)@) == execute(Operation::Dec, Mode::AbsoluteX, *old(self), old(mem)@),
    {
        let addr = self.absx_ro(mem);
        self.dec(mem, addr);
    }

    fn asl_zp(&mut self, mem: &mut Memory)
        requires
            old(self).cycles <= 0xFF,
        ensures
            (*final(self), final(mem)@) == execute(Operation::Asl, Mode::ZeroPage, *old(self), old(mem)@),
    {
        let addr = self.zp(mem);
        self.asl_at(mem, addr);
    }

    fn asl_zpx(&mut self, mem: &mut Memory)
        requires
            old(self).cycles <= 0xFF,
        ensures
            (*final(self), final(mem)@) == execute(Operation::Asl, Mode::ZeroPageX, *old(self), old(mem)@),
    {
        let addr = self.zpx(mem);
        self.asl_at(mem, addr);
    }

    fn asl_abs(&mut self, mem: &mut Memory)
        requires
            old(self).cycles <= 0xFF,
        ensures
            (*final(self), final(mem)@) == execute(Operation::Asl, Mode::Absolute, *old(self), old(mem)@),
    {
        let addr = self.abs(mem);
        self.asl_at(mem, addr);
    }

    fn asl_absx(&mut self, mem: &mut Memory)
        requires
            old(self).cycles <= 0xFF,
        ensures
            (*final(self), final(mem)@) == execute(Operation::Asl, Mode::AbsoluteX, *old(self), old(mem)@),
    {
        let addr = self.absx_ro(mem);
        self.asl_at(mem, addr);
    }

    fn lsr_zp(&mut self, mem: &mut Memory)
        requires
            old(self).cycles <= 0xFF,
        ensures
            (*final(self), final(mem)@) == execute(Operation::Lsr, Mode::ZeroPage, *old(self), old(mem)@),
    {
        let addr = self.zp(mem);
        self.lsr_at(mem, addr);
    }

    fn lsr_zpx(&mut self, mem: &mut Memory)
        requires
            old(self).cycles <= 0xFF,
        ensures
            (*final(self), final(mem)@) == execute(Operation::Lsr, Mode::ZeroPageX, *old(self), old(mem)@),
    {
        let addr = self.zpx(mem);
        self.lsr_at(mem, addr);
    }

    fn lsr_abs(&mut self, mem: &mut Memory)
        requires
            old(self).cycles <= 0xFF,
        ensures
            (*final(self), final(mem)@) == execute(Operation::Lsr, Mode::Absolute, *old(self), old(mem)@),
    {
        let addr = self.abs(mem);
        self.lsr_at(mem, addr);
    }

    fn lsr_absx(&mut self, mem: &mut Memory)
        requires
            old(self).cycles <= 0xFF,
        ensures
            (*final(self), final(mem)@) == execute(Operation::Lsr, Mode::AbsoluteX, *old(self), old(mem)@),
    {
        let addr = self.absx_ro(mem);
        self.lsr_at(mem, addr);
    }

    fn rol_zp(&mut self, mem: &mut Memory)
        requires
            old(self).cycles <= 0xFF,
        ensures
            (*final(self), final(mem)@) == execute(Operation::Rol, Mode::ZeroPage, *old(self), old(mem)@),
    {
        let addr = self.zp(mem);
        self.rol_at(mem, addr);
    }

    fn rol_zpx(&mut self, mem: &mut Memory)
        requires
            old(self).cycles <= 0xFF,
        ensures
            (*final(self), final(mem)@) == execute(Operation::Rol, Mode::ZeroPageX, *old(self), old(mem)@),
    {
        let addr = self.zpx(mem);
        self.rol_at(mem, addr);
    }

    fn rol_abs(&mut self, mem: &mut Memory)
        requires
            old(self).cycles <= 0xFF,
        ensures
            (*final(self), final(mem)@) == execute(Operation::Rol, Mode::Absolute, *old(self), old(mem)@),
    {
        let addr = self.abs(mem);
        self.rol_at(mem, addr);
    }

    fn rol_absx(&mut self, mem: &mut Memory)
        requires
            old(self).cycles <= 0xFF,
        ensures
            (*final(self), final(mem)@) == execute(Operation::Rol, Mode::AbsoluteX, *old(self), old(mem)@),
    {
        let addr = self.absx_ro(mem);
        self.rol_at(mem, addr);
    }

    fn ror_zp(&mut self, mem: &mut Memory)
        requires
            old(self).cycles <= 0xFF,
        ensures
            (*final(self), final(mem)@) == execute(Operation::Ror, Mode::ZeroPage, *old(self), old(mem)@),
    {
        let addr = self.zp(mem);
        self.ror_at(mem, addr);
    }

    fn ror_zpx(&mut self, mem: &mut Memory)
        requires
            old(self).cycles <= 0xFF,
        ensures
            (*final(self), final(mem)@) == execute(Operation::Ror, Mode::ZeroPageX, *old(self), old(mem)@),
    {
        let addr = self.zpx(mem);
        self.ror_at(mem, addr);
    }

    fn ror_abs(&mut self, mem: &mut Memory)
        requires
            old(self).cycles <= 0xFF,
        ensures
            (*final(self), final(mem)@) == execute(Operation::Ror, Mode::Absolute, *old(self), old(mem)@),
    {
        let addr = self.abs(mem);
        self.ror_at(mem, addr);
    }

    fn ror_absx(&mut self, mem: &mut Memory)
        requires
            old(self).cycles <= 0xFF,
        ensures
            (*final(self), final(mem)@) == execute(Operation::Ror, Mode::AbsoluteX, *old(self), old(mem)@),
    {
        let addr = self.absx_ro(mem);
        self.ror_at(mem, addr);
    }

    fn lax_zp(&mut self, mem: &Memory)
        requires
            old(self).cycles <= 0xFF,
        ensures
            (*final(self), mem@) == execute(Operation::Lax, Mode::ZeroPage, *old(self), mem@),
    {
        let addr = self.zp(mem);
        self.lax(mem, addr);
    }

    fn lax_zpy(&mut self, mem: &Memory)
        requires
            old(self).cycles <= 0xFF,
        ensures
            (*final(self), mem@) == execute(Operation::Lax, Mode::ZeroPageY, *old(self), mem@),
    {
        let addr = self.zpy(mem);
        self.lax(mem, addr);
    }

    fn lax_abs(&mut self, mem: &Memory)
        requires
            old(self).cycles <= 0xFF,
        ensures
            (*final(self), mem@) == execute(Operation::Lax, Mode::Absolute, *old(self), mem@),
    {
        let addr = self.abs(mem);
        self.lax(mem, addr);
    }

    fn lax_absy(&mut self, mem: &Memory)
        requires
            old(self).cycles <= 0xFF,
        ensures
            (*final(self), mem@) == execute(Operation::Lax, Mode::AbsoluteYRead, *old(self), mem@),
    {
        let addr = self.absy(mem);
        self.lax(mem, addr);
    }

    fn lax_indx(&mut self, mem: &Memory)
        requires
            old(self).cycles <= 0xFF,
        ensures
            (*final(self), mem@) == execute(Operation::Lax, Mode::IndirectX, *old(self), mem@),
    {
        let addr = self.indx(mem);
        self.lax(mem, addr);
    }

    fn lax_indy(&mut self, mem: &Memory)
        requires
            old(self).cycles <= 0xFF,
        ensures
            (*final(self), mem@) == execute(Operation::Lax, Mode::IndirectYRead, *old(self), mem@),
    {
        let addr = self.indy(mem);
        self.lax(mem, addr);
    }

    fn sax_zp(&mut self, mem: &mut Memory)
        requires
            old(self).cycles <= 0xFF,
        ensures
            (*final(self), final(mem)@) == execute(Operation::Sax, Mode::ZeroPage, *old(self), old(mem)@),
    {
        let addr = self.zp(mem);
        self.sax(mem, addr);
    }

    fn sax_zpy(&mut self, mem: &mut Memory)
        requires
            old(self).cycles <= 0xFF,
        ensures
            (*final(self), final(mem)@) == execute(Operation::Sax, Mode::ZeroPageY, *old(self), old(mem)@),
    {
        let addr = self.zpy(mem);
        self.sax(mem, addr);
    }

    fn sax_abs(&mut self, mem: &mut Memory)
        requires
            old(self).cycles <= 0xFF,
        ensures
            (*final(self), final(mem)@) == execute(Operation::Sax, Mode::Absolute, *old(self), old(mem)@),
    {
        let addr = self.abs(mem);
        self.sax(mem, addr);
    }

    fn sax_indx(&mut self, mem: &mut Memory)
        requires
            old(self).cycles <= 0xFF,
        ensures
            (*final(self), final(mem)@) == execute(Operation::Sax, Mode::IndirectX, *old(self), old(mem)@),
    {
        let addr = self.indx(mem);
        self.sax(mem, addr);
    }

    fn dcp_zp(&mut self, mem: &mut Memory)
        requires
            old(self).cycles <= 0xFF,
        ensures
            (*final(self), final(mem)@) == execute(Operation::Dcp, Mode::ZeroPage, *old(self), old(mem)@),
    {
        let addr = self.zp(mem);
        self.dcp(mem, addr);
    }

    fn dcp_zpx(&mut self, mem: &mut Memory)
        requires
            old(self).cycles <= 0xFF,
        ensures
            (*final(self), final(mem)@) == execute(Operation::Dcp, Mode::ZeroPageX, *old(self), old(mem)@),
    {
        let addr = self.zpx(mem);
        self.dcp(mem, addr);
    }

    fn dcp_abs(&mut self, mem: &mut Memory)
        requires
            old(self).cycles <= 0xFF,
        ensures
            (*final(self), final(mem)@) == execute(Operation::Dcp, Mode::Absolute, *old(self), old(mem)@),
    {
        let addr = self.abs(mem);
        self.dcp(mem, addr);
    }

    fn dcp_absx(&mut self, mem: &mut Memory)
        requires
            old(self).cycles <= 0xFF,
        ensures
            (*final(self), final(mem)@) == execute(Operation::Dcp, Mode::AbsoluteX, *old(self), old(mem)@),
    {
        let addr = self.absx_ro(mem);
        self.dcp(mem, addr);
    }

    fn dcp_absy(&mut self, mem: &mut Memory)
        requires
            old(self).cycles <= 0xFF,
        ensures
            (*final(self), final(mem)@) == execute(Operation::Dcp, Mode::AbsoluteY, *old(self), old(mem)@),
    {
        let addr = self.absy_ro(mem);
        self.dcp(mem, addr);
    }

    fn dcp_indx(&mut self, mem: &mut Memory)
        requires
            old(self).cycles <= 0xFF,
        ensures
            (*final(self), final(mem)@) == execute(Operation::Dcp, Mode::IndirectX, *old(self), old(mem)@),
    {
        let addr = self.indx(mem);
        self.dcp(mem, addr);
    }

    fn dcp_indy(&mut self, mem: &mut Memory)
        requires
            old(self).cycles <= 0xFF,
        ensures
            (*final(self), final(mem)@) == execute(Operation::Dcp, Mode::IndirectY, *old(self), old(mem)@),
    {
        let addr = self.indy_ro(mem);
        self.dcp(mem, addr);
    }

    fn isc_zp(&mut self, mem: &mut Memory)
        requires
            old(self).cycles <= 0xFF,
        ensures
            (*final(self), final(mem)@) == execute(Operation::Isc, Mode::ZeroPage, *old(self), old(mem)@),
    {
        let addr = self.zp(mem);
        self.isc(mem, addr);
    }

    fn isc_zpx(&mut self, mem: &mut Memory)
        requires
            old(self).cycles <= 0xFF,
        ensures
            (*final(self), final(mem)@) == execute(Operation::Isc, Mode::ZeroPageX, *old(self), old(mem)@),
    {
        let addr = self.zpx(mem);
        self.isc(mem, addr);
    }

    fn isc_abs(&mut self, mem: &mut Memory)
        requires
            old(self).cycles <= 0xFF,
        ensures
            (*final(self), final(mem)@) == execute(Operation::Isc, Mode::Absolute, *old(self), old(mem)@),
    {
        let addr = self.abs(mem);
        self.isc(mem, addr);
    }

    fn isc_absx(&mut self, mem: &mut Memory)
        requires
            old(self).cycles <= 0xFF,
        ensures
            (*final(self), final(mem)@) == execute(Operation::Isc, Mode::AbsoluteX, *old(self), old(mem)@),
    {
        let addr = self.absx_ro(mem);
        self.isc(mem, addr);
    }

    fn isc_absy(&mut self, mem: &mut Memory)
        requires
            old(self).cycles <= 0xFF,
        ensures
            (*final(self), final(mem)@) == execute(Operation::Isc, Mode::AbsoluteY, *old(self), old(mem)@),
    {
        let addr = self.absy_ro(mem);
        self.isc(mem, addr);
    }

    fn isc_indx(&mut self, mem: &mut Memory)
        requires
            old(self).cycles <= 0xFF,
        ensures
            (*final(self), final(mem)@) == execute(Operation::Isc, Mode::IndirectX, *old(self), old(mem)@),
    {
        let addr = self.indx(mem);
        self.isc(mem, addr);
    }

    fn isc_indy(&mut self, mem: &mut Memory)
        requires
            old(self).cycles <= 0xFF,
        ensures
            (*final(self), final(mem)@) == execute(Operation::Isc, Mode::IndirectY, *old(self), old(mem)@),
    {
        let addr = self.indy_ro(mem);
        self.isc(mem, addr);
    }

    fn slo_zp(&mut self, mem: &mut Memory)
        requires
            old(self).cycles <= 0xFF,
        ensures
            (*final(self), final(mem)@) == execute(Operation::Slo, Mode::ZeroPage, *old(self), old(mem)@),
    {
        let addr = self.zp(mem);
        self.slo(mem, addr);
    }

    fn slo_zpx(&mut self, mem: &mut Memory)
        requires
            old(self).cycles <= 0xFF,
        ensures
            (*final(self), final(mem)@) == execute(Operation::Slo, Mode::ZeroPageX, *old(self), old(mem)@),
    {
        let addr = self.zpx(mem);
        self.slo(mem, addr);
    }

    fn slo_abs(&mut self, mem: &mut Memory)
        requires
            old(self).cycles <= 0xFF,
        ensures
            (*final(self), final(mem)@) == execute(Operation::Slo, Mode::Absolute, *old(self), old(mem)@),
    {
        let addr = self.abs(mem);
        self.slo(mem, addr);
    }

    fn slo_absx(&mut self, mem: &mut Memory)
        requires
            old(self).cycles <= 0xFF,
        ensures
            (*final(self), final(mem)@) == execute(Operation::Slo, Mode::AbsoluteX, *old(self), old(mem)@),
    {
        let addr = self.absx_ro(mem);
        self.slo(mem, addr);
    }

    fn slo_absy(&mut self, mem: &mut Memory)
        requires
            old(self).cycles <= 0xFF,
        ensures
            (*final(self), final(mem)@) == execute(Operation::Slo, Mode::AbsoluteY, *old(self), old(mem)@),
    {
        let addr = self.absy_ro(mem);
        self.slo(mem, addr);
    }

    fn slo_indx(&mut self, mem: &mut Memory)
        requires
            old(self).cycles <= 0xFF,
        ensures
            (*final(self), final(mem)@) == execute(Operation::Slo, Mode::IndirectX, *old(self), old(mem)@),
    {
        let addr = self.indx(mem);
        self.slo(mem, addr);
    }

    fn slo_indy(&mut self, mem: &mut Memory)
        requires
            old(self).cycles <= 0xFF,
        ensures
            (*final(self), final(mem)@) == execute(Operation::Slo, Mode::IndirectY, *old(self), old(mem)@),
    {
        let addr = self.indy_ro(mem);
        self.slo(mem, addr);
    }

    fn rla_zp(&mut self, mem: &mut Memory)
        requires
            old(self).cycles <= 0xFF,
        ensures
            (*final(self), final(mem)@) == execute(Operation::Rla, Mode::ZeroPage, *old(self), old(mem)@),
    {
        let addr = self.zp(mem);
        self.rla(mem, addr);
    }

    fn rla_zpx(&mut self, mem: &mut Memory)
        requires
            old(self).cycles <= 0xFF,
        ensures
            (*final(self), final(mem)@) == execute(Operation::Rla, Mode::ZeroPageX, *old(self), old(mem)@),
    {
        let addr = self.zpx(mem);
        self.rla(mem, addr);
    }

    fn rla_abs(&mut self, mem: &mut Memory)
        requires
            old(self).cycles <= 0xFF,
        ensures
            (*final(self), final(mem)@) == execute(Operation::Rla, Mode::Absolute, *old(self), old(mem)@),
    {
        let addr = self.abs(mem);
        self.rla(mem, addr);
    }

    fn rla_absx(&mut self, mem: &mut Memory)
        requires
            old(self).cycles <= 0xFF,
        ensures
            (*final(self), final(mem)@) == execute(Operation::Rla, Mode::AbsoluteX, *old(self), old(mem)@),
    {
        let addr = self.absx_ro(mem);
        self.rla(mem, addr);
    }

    fn rla_absy(&mut self, mem: &mut Memory)
        requires
            old(self).cycles <= 0xFF,
        ensures
            (*final(self), final(mem)@) == execute(Operation::Rla, Mode::AbsoluteY, *old(self), old(mem)@),
    {
        let addr = self.absy_ro(mem);
        self.rla(mem, addr);
    }

    fn rla_indx(&mut self, mem: &mut Memory)
        requires
            old(self).cycles <= 0xFF,
        ensures
            (*final(self), final(mem)@) == execute(Operation::Rla, Mode::IndirectX, *old(self), old(mem)@),
    {
        let addr = self.indx(mem);
        self.rla(mem, addr);
    }

    fn rla_indy(&mut self, mem: &mut Memory)
        requires
            old(self).cycles <= 0xFF,
        ensures
            (*final(self), final(mem)@) == execute(Operation::Rla, Mode::IndirectY, *old(self), old(mem)@),
    {
        let addr = self.indy_ro(mem);
        self.rla(mem, addr);
    }

    fn sre_zp(&mut self, mem: &mut Memory)
        requires
            old(self).cycles <= 0xFF,
        ensures
            (*final(self), final(mem)@) == execute(Operation::Sre, Mode::ZeroPage, *old(self), old(mem)@),
    {
        let addr = self.zp(mem);
        self.sre(mem, addr);
    }

    fn sre_zpx(&mut self, mem: &mut Memory)
        requires
            old(self).cycles <= 0xFF,
        ensures
            (*final(self), final(mem)@) == execute(Operation::Sre, Mode::ZeroPageX, *old(self), old(mem)@),
    {
        let addr = self.zpx(mem);
        self.sre(mem, addr);
    }

    fn sre_abs(&mut self, mem: &mut Memory)
        requires
            old(self).cycles <= 0xFF,
        ensures
            (*final(self), final(mem)@) == execute(Operation::Sre, Mode::Absolute, *old(self), old(mem)@),
    {
        let addr = self.abs(mem);
        self.sre(mem, addr);
    }

    fn sre_absx(&mut self, mem: &mut Memory)
        requires
            old(self).cycles <= 0xFF,
        ensures
            (*final(self), final(mem)@) == execute(Operation::Sre, Mode::AbsoluteX, *old(self), old(mem)@),
    {
        let addr = self.absx_ro(mem);
        self.sre(mem, addr);
    }

    fn sre_absy(&mut self, mem: &mut Memory)
        requires
            old(self).cycles <= 0xFF,
        ensures
            (*final(self), final(mem)@) == execute(Operation::Sre, Mode::AbsoluteY, *old(self), old(mem)@),
    {
        let addr = self.absy_ro(mem);
        self.sre(mem, addr);
    }

    fn sre_indx(&mut self, mem: &mut Memory)
        requires
            old(self).cycles <= 0xFF,
        ensures
            (*final(self), final(mem)@) == execute(Operation::Sre, Mode::IndirectX, *old(self), old(mem)@),
    {
        let addr = self.indx(mem);
        self.sre(mem, addr);
    }

    fn sre_indy(&mut self, mem: &mut Memory)
        requires
            old(self).cycles <= 0xFF,
        ensures
            (*final(self), final(mem)@) == execute(Operation::Sre, Mode::IndirectY, *old(self), old(mem)@),
    {
        let addr = self.indy_ro(mem);
        self.sre(mem, addr);
    }

    fn rra_zp(&mut self, mem: &mut Memory)
        requires
            old(self).cycles <= 0xFF,
        ensures
            (*final(self), final(mem)@) == execute(Operation::Rra, Mode::ZeroPage, *old(self), old(mem)@),
    {
        let addr = self.zp(mem);
        self.rra(mem, addr);
    }

    fn rra_zpx(&mut self, mem: &mut Memory)
        requires
            old(self).cycles <= 0xFF,
        ensures
            (*final(self), final(mem)@) == execute(Operation::Rra, Mode::ZeroPageX, *old(self), old(mem)@),
    {
        let addr = self.zpx(mem);
        self.rra(mem, addr);
    }

    fn rra_abs(&mut self, mem: &mut Memory)
        requires
            old(self).cycles <= 0xFF,
        ensures
            (*final(self), final(mem)@) == execute(Operation::Rra, Mode::Absolute, *old(self), old(mem)@),
    {
        let addr = self.abs(mem);
        self.rra(mem, addr);
    }

    fn rra_absx(&mut self, mem: &mut Memory)
        requires
            old(self).cycles <= 0xFF,
        ensures
            (*final(self), final(mem)@) == execute(Operation::Rra, Mode::AbsoluteX, *old(self), old(mem)@),
    {
        let addr = self.absx_ro(mem);
        self.rra(mem, addr);
    }

    fn rra_absy(&mut self, mem: &mut Memory)
        requires
            old(self).cycles <= 0xFF,
        ensures
            (*final(self), final(mem)@) == execute(Operation::Rra, Mode::AbsoluteY, *old(self), old(mem)@),
    {
        let addr = self.absy_ro(mem);
        self.rra(mem, addr);
    }

    fn rra_indx(&mut self, mem: &mut Memory)
        requires
            old(self).cycles <= 0xFF,
        ensures
            (*final(self), final(mem)@) == execute(Operation::Rra, Mode::IndirectX, *old(self), old(mem)@),
    {
        let addr = self.indx(mem);
        self.rra(mem, addr);
    }

    fn rra_indy(&mut self, mem: &mut Memory)
        requires
            old(self).cycles <= 0xFF,
        ensures
            (*final(self), final(mem)@) == execute(Operation::Rra, Mode::IndirectY, *old(self), old(mem)@),
    {
        let addr = self.indy_ro(mem);
        self.rra(mem, addr);
    }

    /// Executes an opcode in 0x00..=0x1F, with PC past the opcode byte.
    fn run_00_1f(&mut self, mem: &mut Memory, opcode: u8)
        requires
            opcode <= 0x1F,
            decode(opcode).is_some(),
            old(self).cycles <= 0xFF,
        ensures
            (*final(self), final(mem)@) == execute(
                decode(opcode).unwrap().0,
                decode(opcode).unwrap().1,
                *old(self),
                old(mem)@,
            ),
    {
        match opcode {
            op::PHP => self.php(mem),
            op::ORA_IMM => self.ora_imm(mem),
            op::ORA_ZP => self.ora_zp(mem),
            op::ORA_ZPX => self.ora_zpx(mem),
            op::ORA_ABS => self.ora_abs(mem),
            op::ORA_ABSX => self.ora_absx(mem),
            op::ORA_ABSY => self.ora_absy(mem),
            op::ORA_INDX => self.ora_indx(mem),
            op::ORA_INDY => self.ora_indy(mem),
            op::ASL => self.asl(),
            op::ASL_ZP => self.asl_zp(mem),
            op::ASL_ZPX => self.asl_zpx(mem),
            op::ASL_ABS => self.asl_abs(mem),
            op::ASL_ABSX => self.asl_absx(mem),
            op::BPL => self.bpl(mem),
            op::CLC => self.clc(),
            op::BRK => self.brk(mem),
            op::SLO_ZP => self.slo_zp(mem),
            op::SLO_ZPX => self.slo_zpx(mem),
            op::SLO_ABS => self.slo_abs(mem),
            op::SLO_ABSX => self.slo_absx(mem),
            op::SLO_ABSY => self.slo_absy(mem),
            op::SLO_INDX => self.slo_indx(mem),
            op::SLO_INDY => self.slo_indy(mem),
            // No-operations, some undocumented: they only consume their operand bytes.
            0x04 => {
                self.zp(mem);
            },
            0x0C => {
                self.abs(mem);
            },
            0x14 => {
                self.zpx(mem);
            },
            0x1C => {
                self.absx(mem);
            },
            0x1A => {},
            // Excluded by the precondition.
            _ => {},
        }
    }

    /// Executes an opcode in 0x20..=0x3F, with PC past the opcode byte.
    fn run_20_3f(&mut self, mem: &mut Memory, opcode: u8)
        requires
            0x20 <= opcode <= 0x3F,
            decode(opcode).is_some(),
            old(self).cycles <= 0xFF,
        ensures
            (*final(self), final(mem)@) == execute(
                decode(opcode).unwrap().0,
                decode(opcode).unwrap().1,
                *old(self),
                old(mem)@,
            ),
    {
        match opcode {
            op::PLP => self.plp(mem),
            op::AND_IMM => self.and_imm(mem),
            op::AND_ZP => self.and_zp(mem),
            op::AND_ZPX => self.and_zpx(mem),
            op::AND_ABS => self.and_abs(mem),
            op::AND_ABSX => self.and_absx(mem),
            op::AND_ABSY => self.and_absy(mem),
            op::AND_INDX => self.and_indx(mem),
            op::AND_INDY => self.and_indy(mem),
            op::BIT_ZP => self.bit_zp(mem),
            op::BIT_ABS => self.bit_abs(mem),
            op::ROL => self.rol(),
            op::ROL_ZP => self.rol_zp(mem),
            op::ROL_ZPX => self.rol_zpx(mem),
            op::ROL_ABS => self.rol_abs(mem),
            op::ROL_ABSX => self.rol_absx(mem),
            op::JSR => self.jsr(mem),
            op::BMI => self.bmi(mem),
            op::SEC => self.sec(),
            op::RLA_ZP => self.rla_zp(mem),
            op::RLA_ZPX => self.rla_zpx(mem),
            op::RLA_ABS => self.rla_abs(mem),
            op::RLA_ABSX => self.rla_absx(mem),
            op::RLA_ABSY => self.rla_absy(mem),
            op::RLA_INDX => self.rla_indx(mem),
            op::RLA_INDY => self.rla_indy(mem),
            // No-operations, some undocumented: they only consume their operand bytes.
            0x34 => {
                self.zpx(mem);
            },
            0x3C => {
                self.absx(mem);
            },
            0x3A => {},
            // Excluded by the precondition.
            _ => {},
        }
    }

    /// Executes an opcode in 0x40..=0x5F, with PC past the opcode byte.
    fn run_40_5f(&mut self, mem: &mut Memory, opcode: u8)
        requires
            0x40 <= opcode <= 0x5F,
            decode(opcode).is_some(),
            old(self).cycles <= 0xFF,
        ensures
            (*final(self), final(mem)@) == execute(
                decode(opcode).unwrap().0,
                decode(opcode).unwrap().1,
                *old(self),
                old(mem)@,
            ),
    {
        match opcode {
            op::PHA => self.pha(mem),
            op::EOR_IMM => self.eor_imm(mem),
            op::EOR_ZP => self.eor_zp(mem),
            op::EOR_ZPX => self.eor_zpx(mem),
            op::EOR_ABS => self.eor_abs(mem),
            op::EOR_ABSX => self.eor_absx(mem),
            op::EOR_ABSY => self.eor_absy(mem),
            op::EOR_INDX => self.eor_indx(mem),
            op::EOR_INDY => self.eor_indy(mem),
            op::LSR => self.lsr(),
            op::LSR_ZP => self.lsr_zp(mem),
            op::LSR_ZPX => self.lsr_zpx(mem),
            op::LSR_ABS => self.lsr_abs(mem),
            op::LSR_ABSX => self.lsr_absx(mem),
            op::JMP_ABS => self.jmp_abs(mem),
            op::BVC => self.bvc(mem),
            op::CLI => self.cli(),
            op::RTI => self.rti(mem),
            op::SRE_ZP => self.sre_zp(mem),
            op::SRE_ZPX => self.sre_zpx(mem),
            op::SRE_ABS => self.sre_abs(mem),
            op::SRE_ABSX => self.sre_absx(mem),
            op::SRE_ABSY => self.sre_absy(mem),
            op::SRE_INDX => self.sre_indx(mem),
            op::SRE_INDY => self.sre_indy(mem),
            // No-operations, some undocumented: they only consume their operand bytes.
            0x44 => {
                self.zp(mem);
            },
            0x54 => {
                self.zpx(mem);
            },
            0x5C => {
                self.absx(mem);
            },
            0x5A => {},
            // Excluded by the precondition.
            _ => {},
        }
    }

    /// Executes an opcode in 0x60..=0x7F, with PC past the opcode byte.
    fn run_60_7f(&mut self, mem: &mut Memory, opcode: u8)
        requires
            0x60 <= opcode <= 0x7F,
            decode(opcode).is_some(),
            old(self).cycles <= 0xFF,
        ensures
            (*final(self), final(mem)@) == execute(
                decode(opcode).unwrap().0,
                decode(opcode).unwrap().1,
                *old(self),
                old(mem)@,
            ),
    {
        match opcode {
            op::PLA => self.pla(mem),
            op::ADC_IMM => self.adc_imm(mem),
            op::ADC_ZP => self.adc_zp(mem),
            op::ADC_ZPX => self.adc_zpx(mem),
            op::ADC_ABS => self.adc_abs(mem),
            op::ADC_ABSX => self.adc_absx(mem),
            op::ADC_ABSY => self.adc_absy(mem),
            op::ADC_INDX => self.adc_indx(mem),
            op::ADC_INDY => self.adc_indy(mem),
            op::ROR => self.ror(),
            op::ROR_ZP => self.ror_zp(mem),
            op::ROR_ZPX => self.ror_zpx(mem),
            op::ROR_ABS => self.ror_abs(mem),
            op::ROR_ABSX => self.ror_absx(mem),
            op::RTS => self.rts(mem),
            op::JMP_IND => self.jmp_ind(mem),
            op::BVS => self.bvs(mem),
            op::SEI => self.sei(),
            op::RRA_ZP => self.rra_zp(mem),
            op::RRA_ZPX => self.rra_zpx(mem),
            op::RRA_ABS => self.rra_abs(mem),
            op::RRA_ABSX => self.rra_absx(mem),
            op::RRA_ABSY => self.rra_absy(mem),
            op::RRA_INDX => self.rra_indx(mem),
            op::RRA_INDY => self.rra_indy(mem),
            // No-operations, some undocumented: they only consume their operand bytes.
            0x64 => {
                self.zp(mem);
            },
            0x74 => {
                self.zpx(mem);
            },
            0x7C => {
                self.absx(mem);
            },
            0x7A => {},
            // Excluded by the precondition.
            _ => {},
        }
    }

    /// Executes an opcode in 0x80..=0x9F, with PC past the opcode byte.
    fn run_80_9f(&mut self, mem: &mut Memory, opcode: u8)
        requires
            0x80 <= opcode <= 0x9F,
            decode(opcode).is_some(),
            old(self).cycles <= 0xFF,
        ensures
            (*final(self), final(mem)@) == execute(
                decode(opcode).unwrap().0,
                decode(opcode).unwrap().1,
                *old(self),
                old(mem)@,
            ),
    {
        match opcode {
            op::STA_ZP => self.sta_zp(mem),
            op::STA_ZPX => self.sta_zpx(mem),
            op::STA_ABS => self.sta_abs(mem),
            op::STA_ABSX => self.sta_absx(mem),
            op::STA_ABSY => self.sta_absy(mem),
            op::STA_INDX => self.sta_indx(mem),
            op::STA_INDY => self.sta_indy(mem),
            op::STX_ZP => self.stx_zp(mem),
            op::STX_ZPY => self.stx_zpy(mem),
            op::STX_ABS => self.stx_abs(mem),
            op::STY_ZP => self.sty_zp(mem),
            op::STY_ZPX => self.sty_zpx(mem),
            op::STY_ABS => self.sty_abs(mem),
            op::TXA => self.txa(),
            op::TYA => self.tya(),
            op::TXS => self.txs(),
            op::DEY => self.dey(),
            op::BCC => self.bcc(mem),
            op::SAX_ZP => self.sax_zp(mem),
            op::SAX_ZPY => self.sax_zpy(mem),
            op::SAX_ABS => self.sax_abs(mem),
            op::SAX_INDX => self.sax_indx(mem),
            // No-operations, some undocumented: they only consume their operand bytes.
            0x80 => {
                self.imm();
            },
            // Excluded by the precondition.
            _ => {},
        }
    }

    /// Executes an opcode in 0xA0..=0xBF, with PC past the opcode byte.
    fn run_a0_bf(&mut self, mem: &mut Memory, opcode: u8)
        requires
            0xA0 <= opcode <= 0xBF,
            decode(opcode).is_some(),
            old(self).cycles <= 0xFF,
        ensures
            (*final(self), final(mem)@) == execute(
                decode(opcode).unwrap().0,
                decode(opcode).unwrap().1,
                *old(self),
                old(mem)@,
            ),
    {
        match opcode {
            op::LDA_IMM => self.lda_imm(mem),
            op::LDA_ZP => self.lda_zp(mem),
            op::LDA_ZPX => self.lda_zpx(mem),
            op::LDA_ABS => self.lda_abs(mem),
            op::LDA_ABSX => self.lda_absx(mem),
            op::LDA_ABSY => self.lda_absy(mem),
            op::LDA_INDX => self.lda_indx(mem),
            op::LDA_INDY => self.lda_indy(mem),
            op::LDX_IMM => self.ldx_imm(mem),
            op::LDX_ZP => self.ldx_zp(mem),
            op::LDX_ZPY => self.ldx_zpy(mem),
            op::LDX_ABS => self.ldx_abs(mem),
            op::LDX_ABSY => self.ldx_absy(mem),
            op::LDY_IMM => self.ldy_imm(mem),
            op::LDY_ZP => self.ldy_zp(mem),
            op::LDY_ZPX => self.ldy_zpx(mem),
            op::LDY_ABS => self.ldy_abs(mem),
            op::LDY_ABSX => self.ldy_absx(mem),
            op::TAX => self.tax(),
            op::TAY => self.tay(),
            op::TSX => self.tsx(),
            op::BCS => self.bcs(mem),
            op::CLV => self.clv(),
            op::LAX_ZP => self.lax_zp(mem),
            op::LAX_ZPY => self.lax_zpy(mem),
            op::LAX_ABS => self.lax_abs(mem),
            op::LAX_ABSY => self.lax_absy(mem),
            op::LAX_INDX => self.lax_indx(mem),
            op::LAX_INDY => self.lax_indy(mem),
            // Excluded by the precondition.
            _ => {},
        }
    }

    /// Executes an opcode in 0xC0..=0xDF, with PC past the opcode byte.
    fn run_c0_df(&mut self, mem: &mut Memory, opcode: u8)
        requires
            0xC0 <= opcode <= 0xDF,
            decode(opcode).is_some(),
            old(self).cycles <= 0xFF,
        ensures
            (*final(self), final(mem)@) == execute(
                decode(opcode).unwrap().0,
                decode(opcode).unwrap().1,
                *old(self),
                old(mem)@,
            ),
    {
        match opcode {
            op::CMP_IMM => self.cmp_imm(mem),
            op::CMP_ZP => self.cmp_zp(mem),
            op::CMP_ZPX => self.cmp_zpx(mem),
            op::CMP_ABS => self.cmp_abs(mem),
            op::CMP_ABSX => self.cmp_absx(mem),
            op::CMP_ABSY => self.cmp_absy(mem),
            op::CMP_INDX => self.cmp_indx(mem),
            op::CMP_INDY => self.cmp_indy(mem),
            op::CPY_IMM => self.cpy_imm(mem),
            op::CPY_ZP => self.cpy_zp(mem),
            op::CPY_ABS => self.cpy_abs(mem),
            op::DEC_ZP => self.dec_zp(mem),
            op::DEC_ZPX => self.dec_zpx(mem),
            op::DEC_ABS => self.dec_abs(mem),
            op::DEC_ABSX => self.dec_absx(mem),
            op::INY => self.iny(),
            op::DEX => self.dex(),
            op::BNE => self.bne(mem),
            op::CLD => self.cld(),
            op::DCP_ZP => self.dcp_zp(mem),
            op::DCP_ZPX => self.dcp_zpx(mem),
            op::DCP_ABS => self.dcp_abs(mem),
            op::DCP_ABSX => self.dcp_absx(mem),
            op::DCP_ABSY => self.dcp_absy(mem),
            op::DCP_INDX => self.dcp_indx(mem),
            op::DCP_INDY => self.dcp_indy(mem),
            // No-operations, some undocumented: they only consume their operand bytes.
            0xD4 => {
                self.zpx(mem);
            },
            0xDC => {
                self.absx(mem);
            },
            0xDA => {},
            // Excluded by the precondition.
            _ => {},
        }
    }

    /// Executes an opcode in 0xE0..=0xFF, with PC past the opcode byte.
    fn run_e0_ff(&mut self, mem: &mut Memory, opcode: u8)
        requires
            0xE0 <= opcode <= 0xFF,
            decode(opcode).is_some(),
            old(self).cycles <= 0xFF,
        ensures
            (*final(self), final(mem)@) == execute(
                decode(opcode).unwrap().0,
                decode(opcode).unwrap().1,
                *old(self),
                old(mem)@,
            ),
    {
        match opcode {
            op::SBC_IMM | 0xEB => self.sbc_imm(mem),
            op::SBC_ZP => self.sbc_zp(mem),
            op::SBC_ZPX => self.sbc_zpx(mem),
            op::SBC_ABS => self.sbc_abs(mem),
            op::SBC_ABSX => self.sbc_absx(mem),
            op::SBC_ABSY => self.sbc_absy(mem),
            op::SBC_INDX => self.sbc_indx(mem),
            op::SBC_INDY => self.sbc_indy(mem),
            op::CPX_IMM => self.cpx_imm(mem),
            op::CPX_ZP => self.cpx_zp(mem),
            op::CPX_ABS => self.cpx_abs(mem),
            op::INC_ZP => self.inc_zp(mem),
            op::INC_ZPX => self.inc_zpx(mem),
            op::INC_ABS => self.inc_abs(mem),
            op::INC_ABSX => self.inc_absx(mem),
            op::INX => self.inx(),
            op::BEQ => self.beq(mem),
            op::SED => self.sed(),
            op::ISC_ZP => self.isc_zp(mem),
            op::ISC_ZPX => self.isc_zpx(mem),
            op::ISC_ABS => self.isc_abs(mem),
            op::ISC_ABSX => self.isc_absx(mem),
            op::ISC_ABSY => self.isc_absy(mem),
            op::ISC_INDX => self.isc_indx(mem),
            op::ISC_INDY => self.isc_indy(mem),
            // No-operations, some undocumented: they only consume their operand bytes.
            op::NOP => {},
            0xF4 => {
                self.zpx(mem);
            },
            0xFC => {
                self.absx(mem);
            },
            0xFA => {},
            // Excluded by the precondition.
            _ => {},
        }
    }

    /// Executes the instruction at PC: sets `cycles` to the opcode's base cost
    /// plus any page-crossing or branch penalty, and `page_crossed` to whether
    /// a taken branch crossed a page.
    pub fn step(&mut self, mem: &mut Memory)
        requires
            decode(old(mem)@[old(self).pc as int]).is_some(),
        ensures
            (*final(self), final(mem)@) == step_spec(*old(self), old(mem)@),
    {
        let opcode = mem.read(self.pc);
        self.page_crossed = false;
        self.cycles = BASE_CYCLES[opcode as usize] as u32;
        self.pc = self.pc.wrapping_add(1);
        if opcode < 0x20 {
            self.run_00_1f(mem, opcode);
        } else if opcode < 0x40 {
            self.run_20_3f(mem, opcode);
        } else if opcode < 0x60 {
            self.run_40_5f(mem, opcode);
        } else if opcode < 0x80 {
            self.run_60_7f(mem, opcode);
        } else if opcode < 0xA0 {
            self.run_80_9f(mem, opcode);
        } else if opcode < 0xC0 {
            self.run_a0_bf(mem, opcode);
        } else if opcode < 0xE0 {
            self.run_c0_df(mem, opcode);
        } else {
            self.run_e0_ff(mem, opcode);
        }
    }
}

} // verus!
