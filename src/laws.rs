use vstd::prelude::*;

use crate::isa::{
    apply, branch_target, crosses, pull, push, resolve, stack_addr, zp_word, Mode, Operation,
};
use crate::memory::{word, MEMORY_SIZE};
use crate::op::{decode, BASE_CYCLES, JMP_IND, JSR, RTS};
use crate::processor::{fetch, step_spec, Processor};
use crate::status::{has_bit, lemma_byte_round_trip, Status, FLAG_U};

verus! {

// ---------------------------------------------------------------------------
// Cycle accounting
// ---------------------------------------------------------------------------
/// The extra cycle of a reading instruction whose indexed address crosses a
/// page; `cpu.pc` is at the first operand byte.
pub open spec fn read_penalty(cpu: Processor, m: Seq<u8>, mode: Mode) -> int {
    let w = word(m[cpu.pc as int], m[cpu.pc.wrapping_add(1) as int]);
    let base = zp_word(m, m[cpu.pc as int]);
    match mode {
        Mode::AbsoluteXRead => if crosses(w, w.wrapping_add(cpu.x as u16)) {
            1
        } else {
            0
        },
        Mode::AbsoluteYRead => if crosses(w, w.wrapping_add(cpu.y as u16)) {
            1
        } else {
            0
        },
        Mode::IndirectYRead => if crosses(base, base.wrapping_add(cpu.y as u16)) {
            1
        } else {
            0
        },
        _ => 0,
    }
}

pub open spec fn is_branch(op: Operation) -> bool {
    match op {
        Operation::Bpl | Operation::Bmi | Operation::Bvc | Operation::Bvs | Operation::Bcc
        | Operation::Bcs | Operation::Bne | Operation::Beq => true,
        _ => false,
    }
}

/// Every branch opcode decodes to the relative addressing mode.
proof fn lemma_branches_are_relative(opcode: u8)
    requires
        decode(opcode).is_some(),
        is_branch(decode(opcode).unwrap().0),
    ensures
        decode(opcode).unwrap().1 == Mode::Relative,
{
}

/// The condition a branch operation tests; `None` for other operations.
pub open spec fn branch_condition(op: Operation, st: Status) -> Option<bool> {
    match op {
        Operation::Bpl => Some(!st.n),
        Operation::Bmi => Some(st.n),
        Operation::Bvc => Some(!st.v),
        Operation::Bvs => Some(st.v),
        Operation::Bcc => Some(!st.c),
        Operation::Bcs => Some(st.c),
        Operation::Bne => Some(!st.z),
        Operation::Beq => Some(st.z),
        _ => None,
    }
}

/// A taken branch costs one cycle, and one more when its target is on
/// another page than the instruction after the branch; `cpu.pc` is at the offset byte.
pub open spec fn branch_penalty(op: Operation, cpu: Processor, m: Seq<u8>) -> int {
    let next = cpu.pc.wrapping_add(1);
    let target = branch_target(next, m[cpu.pc as int]);
    match branch_condition(op, cpu.status) {
        Some(true) => if crosses(next, target) {
            2
        } else {
            1
        },
        _ => 0,
    }
}

proof fn lemma_resolve_cycles(cpu: Processor, m: Seq<u8>, mode: Mode)
    requires
        cpu.cycles <= 0xFF,
    ensures
        resolve(cpu, m, mode).1.cycles == cpu.cycles + read_penalty(cpu, m, mode),
        resolve(cpu, m, mode).1.status == cpu.status,
        mode == Mode::Relative ==> resolve(cpu, m, mode) == (
            branch_target(cpu.pc.wrapping_add(1), m[cpu.pc as int]),
            Processor { pc: cpu.pc.wrapping_add(1), ..cpu },
        ),
{
}

proof fn lemma_apply_cycles(op: Operation, cpu: Processor, m: Seq<u8>, addr: u16)
    requires
        cpu.cycles <= 0x101,
    ensures
        apply(op, cpu, m, addr).0.cycles == cpu.cycles + match branch_condition(op, cpu.status) {
            Some(true) => if crosses(cpu.pc, addr) {
                2int
            } else {
                1int
            },
            _ => 0int,
        },
{
}

/// After a step, `cycles` is the opcode's base cost plus exactly the
/// page-crossing penalty of its addressing mode and the penalty of a taken branch.
pub proof fn lemma_step_cycles(cpu: Processor, m: Seq<u8>)
    requires
        decode(m[cpu.pc as int]).is_some(),
    ensures
        ({
            let opcode = m[cpu.pc as int];
            let (op, mode) = decode(opcode).unwrap();
            let c1 = fetch(cpu, m);
            step_spec(cpu, m).0.cycles == BASE_CYCLES[opcode as int] + read_penalty(c1, m, mode)
                + branch_penalty(op, c1, m)
        }),
{
    let opcode = m[cpu.pc as int];
    let (op, mode) = decode(opcode).unwrap();
    let c1 = fetch(cpu, m);
    lemma_resolve_cycles(c1, m, mode);
    let (addr, c2) = resolve(c1, m, mode);
    lemma_apply_cycles(op, c2, m, addr);
    if is_branch(op) {
        assert(mode == Mode::Relative) by {
            lemma_branches_are_relative(opcode);
        }
    }
}

// ---------------------------------------------------------------------------
// Flags
// ---------------------------------------------------------------------------
/// The status byte read from outside always has `U` set.
pub proof fn lemma_status_u_set(cpu: Processor)
    ensures
        has_bit(cpu.status.spec_byte(), FLAG_U),
{
    lemma_byte_round_trip(cpu.status);
}

/// The register or memory byte an operation writes and sets N and Z from;
/// `None` for an operation that does not.
pub open spec fn nz_result(op: Operation, after: Processor, m: Seq<u8>, addr: u16) -> Option<u8> {
    match op {
        Operation::Lda | Operation::Lax | Operation::Txa | Operation::Tya | Operation::Pla
        | Operation::And | Operation::Eor | Operation::Ora | Operation::Adc | Operation::Sbc
        | Operation::AslA | Operation::LsrA | Operation::RolA | Operation::RorA | Operation::Isc
        | Operation::Slo | Operation::Rla | Operation::Sre | Operation::Rra => Some(after.a),
        Operation::Ldx | Operation::Tax | Operation::Tsx | Operation::Inx | Operation::Dex => Some(
            after.x,
        ),
        Operation::Ldy | Operation::Tay | Operation::Iny | Operation::Dey => Some(after.y),
        Operation::Inc | Operation::Dec | Operation::Asl | Operation::Lsr | Operation::Rol
        | Operation::Ror => Some(m[addr as int]),
        _ => None,
    }
}

proof fn lemma_apply_nz(op: Operation, cpu: Processor, m: Seq<u8>, addr: u16)
    requires
        m.len() == MEMORY_SIZE,
    ensures
        ({
            let (after, m2) = apply(op, cpu, m, addr);
            match nz_result(op, after, m2, addr) {
                Some(r) => after.status.z == (r == 0) && after.status.n == (r >= 0x80),
                None => true,
            }
        }),
{
    match op {
        Operation::Lda => {},
        Operation::Ldx => {},
        Operation::Ldy => {},
        Operation::Lax => {},
        Operation::Sta => {},
        Operation::Stx => {},
        Operation::Sty => {},
        Operation::Sax => {},
        Operation::Tax => {},
        Operation::Tay => {},
        Operation::Txa => {},
        Operation::Tya => {},
        Operation::Tsx => {},
        Operation::Txs => {},
        Operation::Pha => {},
        Operation::Php => {},
        Operation::Pla => {},
        Operation::Plp => {},
        Operation::And => {},
        Operation::Eor => {},
        Operation::Ora => {},
        Operation::Bit => {},
        Operation::Adc => {},
        Operation::Sbc => {},
        Operation::Cmp => {},
        Operation::Cpx => {},
        Operation::Cpy => {},
        Operation::Inc => {},
        Operation::Dec => {},
        Operation::Inx => {},
        Operation::Iny => {},
        Operation::Dex => {},
        Operation::Dey => {},
        Operation::AslA => {},
        Operation::LsrA => {},
        Operation::RolA => {},
        Operation::RorA => {},
        Operation::Asl => {},
        Operation::Lsr => {},
        Operation::Rol => {},
        Operation::Ror => {},
        Operation::Jmp => {},
        Operation::Jsr => {},
        Operation::Rts => {},
        Operation::Bpl => {},
        Operation::Bmi => {},
        Operation::Bvc => {},
        Operation::Bvs => {},
        Operation::Bcc => {},
        Operation::Bcs => {},
        Operation::Bne => {},
        Operation::Beq => {},
        Operation::Clc => {},
        Operation::Cld => {},
        Operation::Cli => {},
        Operation::Clv => {},
        Operation::Sec => {},
        Operation::Sed => {},
        Operation::Sei => {},
        Operation::Brk => {},
        Operation::Rti => {},
        Operation::Nop => {},
        Operation::Dcp => {},
        Operation::Isc => {},
        Operation::Slo => {},
        Operation::Rla => {},
        Operation::Sre => {},
        Operation::Rra => {},
    }
}

/// Every instruction that writes a register or a memory byte and sets N and Z
/// sets Z exactly when that byte is zero and N exactly when it is at least 0x80.
pub proof fn lemma_step_sets_nz(cpu: Processor, m: Seq<u8>)
    requires
        m.len() == MEMORY_SIZE,
        decode(m[cpu.pc as int]).is_some(),
    ensures
        ({
            let (op, mode) = decode(m[cpu.pc as int]).unwrap();
            let addr = resolve(fetch(cpu, m), m, mode).0;
            let (after, m2) = step_spec(cpu, m);
            match nz_result(op, after, m2, addr) {
                Some(r) => after.status.z == (r == 0) && after.status.n == (r >= 0x80),
                None => true,
            }
        }),
{
    let (op, mode) = decode(m[cpu.pc as int]).unwrap();
    let (addr, c1) = resolve(fetch(cpu, m), m, mode);
    lemma_apply_nz(op, c1, m, addr);
}

// ---------------------------------------------------------------------------
// Arithmetic
// ---------------------------------------------------------------------------
/// SBC on an operand leaves A, C, V, Z and N exactly as ADC on its complement does.
pub proof fn lemma_sbc_adc_duality(cpu: Processor, m: Seq<u8>, addr: u16)
    requires
        m.len() == MEMORY_SIZE,
    ensures
        apply(Operation::Sbc, cpu, m, addr).0 == apply(
            Operation::Adc,
            cpu,
            m.update(addr as int, m[addr as int] ^ 0xFF),
            addr,
        ).0,
{
    crate::processor::lemma_sbc_is_adc_of_complement(cpu.a, m[addr as int], cpu.status.c);
}

// ---------------------------------------------------------------------------
// Stack
// ---------------------------------------------------------------------------
/// Pushes the bytes in order.
pub open spec fn push_all(cpu: Processor, m: Seq<u8>, bytes: Seq<u8>) -> (Processor, Seq<u8>)
    decreases bytes.len(),
{
    if bytes.len() == 0 {
        (cpu, m)
    } else {
        let (c1, m1) = push_all(cpu, m, bytes.drop_last());
        push(c1, m1, bytes.last())
    }
}

/// Pulls `n` bytes; the result lists them in the order they were pulled.
pub open spec fn pull_n(cpu: Processor, m: Seq<u8>, n: nat) -> (Processor, Seq<u8>)
    decreases n,
{
    if n == 0 {
        (cpu, Seq::empty())
    } else {
        let (c1, b) = pull(cpu, m);
        let (c2, rest) = pull_n(c1, m, (n - 1) as nat);
        (c2, seq![b] + rest)
    }
}

/// Stack pointer `k` slots below `s`, wrapping within the page (for `0 <= k <= 256`).
pub open spec fn sp_minus(s: u8, k: int) -> u8 {
    if s >= k {
        (s - k) as u8
    } else {
        (s - k + 256) as u8
    }
}

/// Stack pointer `k` slots above `s`, wrapping within the page (for `0 <= k <= 256`).
pub open spec fn sp_plus(s: u8, k: int) -> u8 {
    if s + k < 256 {
        (s + k) as u8
    } else {
        (s + k - 256) as u8
    }
}

proof fn lemma_push_all(cpu: Processor, m: Seq<u8>, bytes: Seq<u8>)
    requires
        m.len() == MEMORY_SIZE,
        bytes.len() <= 256,
    ensures
        ({
            let (c1, m1) = push_all(cpu, m, bytes);
            &&& c1 == Processor { s: sp_minus(cpu.s, bytes.len() as int), ..cpu }
            &&& m1.len() == MEMORY_SIZE
            &&& forall|j: int|
                0 <= j < bytes.len() ==> #[trigger] m1[stack_addr(sp_minus(cpu.s, j))] == bytes[j]
        }),
    decreases bytes.len(),
{
    if bytes.len() > 0 {
        let k = bytes.len() - 1;
        let prefix = bytes.drop_last();
        lemma_push_all(cpu, m, prefix);
        let (c0, m0) = push_all(cpu, m, prefix);
        let slot = stack_addr(sp_minus(cpu.s, k));
        let m1 = m0.update(slot, bytes.last());
        assert(push_all(cpu, m, bytes) == push(c0, m0, bytes.last()));
        assert(c0.s.wrapping_sub(1) == sp_minus(cpu.s, k + 1));
        assert forall|j: int| 0 <= j < bytes.len() implies #[trigger] m1[stack_addr(
            sp_minus(cpu.s, j),
        )] == bytes[j] by {
            if j < k {
                assert(m0[stack_addr(sp_minus(cpu.s, j))] == prefix[j]);
                assert(stack_addr(sp_minus(cpu.s, j)) != slot);
            }
        }
    }
}

proof fn lemma_pull_n(cpu: Processor, m: Seq<u8>, n: nat)
    requires
        n <= 256,
    ensures
        ({
            let (c1, out) = pull_n(cpu, m, n);
            &&& c1 == Processor { s: sp_plus(cpu.s, n as int), ..cpu }
            &&& out.len() == n
            &&& forall|i: int| 0 <= i < n ==> #[trigger] out[i] == m[stack_addr(sp_plus(cpu.s, 1 + i))]
        }),
    decreases n,
{
    if n > 0 {
        let (c1, b) = pull(cpu, m);
        lemma_pull_n(c1, m, (n - 1) as nat);
        let (c2, rest) = pull_n(c1, m, (n - 1) as nat);
        let out = seq![b] + rest;
        assert forall|i: int| 0 <= i < n implies #[trigger] out[i] == m[stack_addr(
            sp_plus(cpu.s, 1 + i),
        )] by {
            if i > 0 {
                assert(out[i] == rest[i - 1]);
                assert(sp_plus(c1.s, 1 + (i - 1)) == sp_plus(cpu.s, 1 + i));
            }
        }
    }
}

/// Pushing up to 256 bytes and pulling as many returns them in reverse
/// order and restores the stack pointer (and every other register).
pub proof fn lemma_stack_round_trip(cpu: Processor, m: Seq<u8>, bytes: Seq<u8>)
    requires
        m.len() == MEMORY_SIZE,
        bytes.len() <= 256,
    ensures
        ({
            let (c1, m1) = push_all(cpu, m, bytes);
            let (c2, out) = pull_n(c1, m1, bytes.len());
            &&& c2 == cpu
            &&& out == bytes.reverse()
        }),
{
    let k = bytes.len() as int;
    lemma_push_all(cpu, m, bytes);
    let (c1, m1) = push_all(cpu, m, bytes);
    lemma_pull_n(c1, m1, bytes.len());
    let (c2, out) = pull_n(c1, m1, bytes.len());
    assert forall|i: int| 0 <= i < k implies #[trigger] out[i] == bytes.reverse()[i] by {
        let j = k - 1 - i;
        assert(sp_plus(c1.s, 1 + i) == sp_minus(cpu.s, j));
        assert(m1[stack_addr(sp_minus(cpu.s, j))] == bytes[j]);
    }
    assert(out =~= bytes.reverse());
}

// ---------------------------------------------------------------------------
// Control transfer
// ---------------------------------------------------------------------------
/// After `JSR`, an `RTS` reached with the same stack pointer and the two
/// stacked bytes intact resumes at the instruction after the `JSR`, with
/// the stack pointer back where it was before the `JSR`.
pub proof fn lemma_jsr_rts(cpu: Processor, m: Seq<u8>, later: Processor, m2: Seq<u8>)
    requires
        m.len() == MEMORY_SIZE,
        m[cpu.pc as int] == JSR,
        m2[later.pc as int] == RTS,
        later.s == step_spec(cpu, m).0.s,
        m2[stack_addr(later.s.wrapping_add(1))] == step_spec(cpu, m).1[stack_addr(
            later.s.wrapping_add(1),
        )],
        m2[stack_addr(later.s.wrapping_add(2))] == step_spec(cpu, m).1[stack_addr(
            later.s.wrapping_add(2),
        )],
    ensures
        step_spec(later, m2).0.pc == cpu.pc.wrapping_add(3),
        step_spec(later, m2).0.s == cpu.s,
{
}

/// `JMP (ptr)` with the pointer's low byte 0xFF takes the target's high byte
/// from the start of the pointer's own page.
pub proof fn lemma_jmp_indirect_page_wrap(cpu: Processor, m: Seq<u8>)
    requires
        m.len() == MEMORY_SIZE,
        m[cpu.pc as int] == JMP_IND,
        word(m[cpu.pc.wrapping_add(1) as int], m[cpu.pc.wrapping_add(2) as int]) & 0xFF == 0xFF,
    ensures
        ({
            let ptr = word(m[cpu.pc.wrapping_add(1) as int], m[cpu.pc.wrapping_add(2) as int]);
            step_spec(cpu, m).0.pc == word(m[ptr as int], m[(ptr & 0xFF00) as int])
        }),
{
    let ptr = word(m[cpu.pc.wrapping_add(1) as int], m[cpu.pc.wrapping_add(2) as int]);
    assert(ptr & 0xFF == 0xFF ==> ptr % 256 == 255 && ptr & 0xFF00 == ptr - 255) by (bit_vector);
}

} // verus!
