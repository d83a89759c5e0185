use vstd::prelude::*;

use crate::isa::{Mode, Operation};

verus! {

/// Cycles each opcode costs before page-crossing and branch penalties.
pub const BASE_CYCLES: [u8; 256] = [
    7, 6, 2, 8, 3, 3, 5, 5, 3, 2, 2, 2, 4, 4, 6, 6, // 0x00
    2, 5, 2, 8, 4, 4, 6, 6, 2, 4, 2, 7, 4, 4, 7, 7, // 0x10
    6, 6, 2, 8, 3, 3, 5, 5, 4, 2, 2, 2, 4, 4, 6, 6, // 0x20
    2, 5, 2, 8, 4, 4, 6, 6, 2, 4, 2, 7, 4, 4, 7, 7, // 0x30
    6, 6, 2, 8, 3, 3, 5, 5, 3, 2, 2, 2, 3, 4, 6, 6, // 0x40
    2, 5, 2, 8, 4, 4, 6, 6, 2, 4, 2, 7, 4, 4, 7, 7, // 0x50
    6, 6, 2, 8, 3, 3, 5, 5, 4, 2, 2, 2, 5, 4, 6, 6, // 0x60
    2, 5, 2, 8, 4, 4, 6, 6, 2, 4, 2, 7, 4, 4, 7, 7, // 0x70
    2, 6, 2, 6, 3, 3, 3, 3, 2, 2, 2, 2, 4, 4, 4, 4, // 0x80
    2, 6, 2, 6, 4, 4, 4, 4, 2, 5, 2, 5, 5, 5, 5, 5, // 0x90
    2, 6, 2, 6, 3, 3, 3, 3, 2, 2, 2, 2, 4, 4, 4, 4, // 0xA0
    2, 5, 2, 5, 4, 4, 4, 4, 2, 4, 2, 4, 4, 4, 4, 4, // 0xB0
    2, 6, 2, 8, 3, 3, 5, 5, 2, 2, 2, 2, 4, 4, 6, 6, // 0xC0
    2, 5, 2, 8, 4, 4, 6, 6, 2, 4, 2, 7, 4, 4, 7, 7, // 0xD0
    2, 6, 2, 8, 3, 3, 5, 5, 2, 2, 2, 2, 4, 4, 6, 6, // 0xE0
    2, 5, 2, 8, 4, 4, 6, 6, 2, 4, 2, 7, 4, 4, 7, 7, // 0xF0
];

// Opcodes, named by operation and addressing mode; the accumulator forms of
// the shifts and the implied instructions carry the bare operation name.
pub const LDA_IMM: u8 = 0xA9;
pub const LDA_ZP: u8 = 0xA5;
pub const LDA_ZPX: u8 = 0xB5;
pub const LDA_ABS: u8 = 0xAD;
pub const LDA_ABSX: u8 = 0xBD;
pub const LDA_ABSY: u8 = 0xB9;
pub const LDA_INDX: u8 = 0xA1;
pub const LDA_INDY: u8 = 0xB1;
pub const LDX_IMM: u8 = 0xA2;
pub const LDX_ZP: u8 = 0xA6;
pub const LDX_ZPY: u8 = 0xB6;
pub const LDX_ABS: u8 = 0xAE;
pub const LDX_ABSY: u8 = 0xBE;
pub const LDY_IMM: u8 = 0xA0;
pub const LDY_ZP: u8 = 0xA4;
pub const LDY_ZPX: u8 = 0xB4;
pub const LDY_ABS: u8 = 0xAC;
pub const LDY_ABSX: u8 = 0xBC;
pub const STA_ZP: u8 = 0x85;
pub const STA_ZPX: u8 = 0x95;
pub const STA_ABS: u8 = 0x8D;
pub const STA_ABSX: u8 = 0x9D;
pub const STA_ABSY: u8 = 0x99;
pub const STA_INDX: u8 = 0x81;
pub const STA_INDY: u8 = 0x91;
pub const STX_ZP: u8 = 0x86;
pub const STX_ZPY: u8 = 0x96;
pub const STX_ABS: u8 = 0x8E;
pub const STY_ZP: u8 = 0x84;
pub const STY_ZPX: u8 = 0x94;
pub const STY_ABS: u8 = 0x8C;
pub const TAX: u8 = 0xAA;
pub const TXA: u8 = 0x8A;
pub const TAY: u8 = 0xA8;
pub const TYA: u8 = 0x98;
pub const TSX: u8 = 0xBA;
pub const TXS: u8 = 0x9A;
pub const PHA: u8 = 0x48;
pub const PHP: u8 = 0x08;
pub const PLA: u8 = 0x68;
pub const PLP: u8 = 0x28;
pub const ORA_IMM: u8 = 0x09;
pub const ORA_ZP: u8 = 0x05;
pub const ORA_ZPX: u8 = 0x15;
pub const ORA_ABS: u8 = 0x0D;
pub const ORA_ABSX: u8 = 0x1D;
pub const ORA_ABSY: u8 = 0x19;
pub const ORA_INDX: u8 = 0x01;
pub const ORA_INDY: u8 = 0x11;
pub const AND_IMM: u8 = 0x29;
pub const AND_ZP: u8 = 0x25;
pub const AND_ZPX: u8 = 0x35;
pub const AND_ABS: u8 = 0x2D;
pub const AND_ABSX: u8 = 0x3D;
pub const AND_ABSY: u8 = 0x39;
pub const AND_INDX: u8 = 0x21;
pub const AND_INDY: u8 = 0x31;
pub const EOR_IMM: u8 = 0x49;
pub const EOR_ZP: u8 = 0x45;
pub const EOR_ZPX: u8 = 0x55;
pub const EOR_ABS: u8 = 0x4D;
pub const EOR_ABSX: u8 = 0x5D;
pub const EOR_ABSY: u8 = 0x59;
pub const EOR_INDX: u8 = 0x41;
pub const EOR_INDY: u8 = 0x51;
pub const BIT_ZP: u8 = 0x24;
pub const BIT_ABS: u8 = 0x2C;
pub const ADC_IMM: u8 = 0x69;
pub const ADC_ZP: u8 = 0x65;
pub const ADC_ZPX: u8 = 0x75;
pub const ADC_ABS: u8 = 0x6D;
pub const ADC_ABSX: u8 = 0x7D;
pub const ADC_ABSY: u8 = 0x79;
pub const ADC_INDX: u8 = 0x61;
pub const ADC_INDY: u8 = 0x71;
pub const SBC_IMM: u8 = 0xE9;
pub const SBC_ZP: u8 = 0xE5;
pub const SBC_ZPX: u8 = 0xF5;
pub const SBC_ABS: u8 = 0xED;
pub const SBC_ABSX: u8 = 0xFD;
pub const SBC_ABSY: u8 = 0xF9;
pub const SBC_INDX: u8 = 0xE1;
pub const SBC_INDY: u8 = 0xF1;
pub const CMP_IMM: u8 = 0xC9;
pub const CMP_ZP: u8 = 0xC5;
pub const CMP_ZPX: u8 = 0xD5;
pub const CMP_ABS: u8 = 0xCD;
pub const CMP_ABSX: u8 = 0xDD;
pub const CMP_ABSY: u8 = 0xD9;
pub const CMP_INDX: u8 = 0xC1;
pub const CMP_INDY: u8 = 0xD1;
pub const CPX_IMM: u8 = 0xE0;
pub const CPX_ZP: u8 = 0xE4;
pub const CPX_ABS: u8 = 0xEC;
pub const CPY_IMM: u8 = 0xC0;
pub const CPY_ZP: u8 = 0xC4;
pub const CPY_ABS: u8 = 0xCC;
pub const INC_ZP: u8 = 0xE6;
pub const INC_ZPX: u8 = 0xF6;
pub const INC_ABS: u8 = 0xEE;
pub const INC_ABSX: u8 = 0xFE;
pub const DEC_ZP: u8 = 0xC6;
pub const DEC_ZPX: u8 = 0xD6;
pub const DEC_ABS: u8 = 0xCE;
pub const DEC_ABSX: u8 = 0xDE;
pub const INX: u8 = 0xE8;
pub const INY: u8 = 0xC8;
pub const DEX: u8 = 0xCA;
pub const DEY: u8 = 0x88;
pub const ASL: u8 = 0x0A;
pub const ASL_ZP: u8 = 0x06;
pub const ASL_ZPX: u8 = 0x16;
pub const ASL_ABS: u8 = 0x0E;
pub const ASL_ABSX: u8 = 0x1E;
pub const LSR: u8 = 0x4A;
pub const LSR_ZP: u8 = 0x46;
pub const LSR_ZPX: u8 = 0x56;
pub const LSR_ABS: u8 = 0x4E;
pub const LSR_ABSX: u8 = 0x5E;
pub const ROL: u8 = 0x2A;
pub const ROL_ZP: u8 = 0x26;
pub const ROL_ZPX: u8 = 0x36;
pub const ROL_ABS: u8 = 0x2E;
pub const ROL_ABSX: u8 = 0x3E;
pub const ROR: u8 = 0x6A;
pub const ROR_ZP: u8 = 0x66;
pub const ROR_ZPX: u8 = 0x76;
pub const ROR_ABS: u8 = 0x6E;
pub const ROR_ABSX: u8 = 0x7E;
pub const JSR: u8 = 0x20;
pub const RTS: u8 = 0x60;
pub const JMP_ABS: u8 = 0x4C;
pub const JMP_IND: u8 = 0x6C;
pub const BPL: u8 = 0x10;
pub const BMI: u8 = 0x30;
pub const BVC: u8 = 0x50;
pub const BVS: u8 = 0x70;
pub const BCC: u8 = 0x90;
pub const BCS: u8 = 0xB0;
pub const BNE: u8 = 0xD0;
pub const BEQ: u8 = 0xF0;
pub const CLC: u8 = 0x18;
pub const CLD: u8 = 0xD8;
pub const CLI: u8 = 0x58;
pub const CLV: u8 = 0xB8;
pub const SEC: u8 = 0x38;
pub const SED: u8 = 0xF8;
pub const SEI: u8 = 0x78;
pub const BRK: u8 = 0x00;
pub const RTI: u8 = 0x40;
pub const LAX_ZP: u8 = 0xA7;
pub const LAX_ZPY: u8 = 0xB7;
pub const LAX_ABS: u8 = 0xAF;
pub const LAX_ABSY: u8 = 0xBF;
pub const LAX_INDX: u8 = 0xA3;
pub const LAX_INDY: u8 = 0xB3;
pub const SAX_ZP: u8 = 0x87;
pub const SAX_ZPY: u8 = 0x97;
pub const SAX_ABS: u8 = 0x8F;
pub const SAX_INDX: u8 = 0x83;
pub const DCP_ZP: u8 = 0xC7;
pub const DCP_ZPX: u8 = 0xD7;
pub const DCP_ABS: u8 = 0xCF;
pub const DCP_ABSX: u8 = 0xDF;
pub const DCP_ABSY: u8 = 0xDB;
pub const DCP_INDX: u8 = 0xC3;
pub const DCP_INDY: u8 = 0xD3;
pub const ISC_ZP: u8 = 0xE7;
pub const ISC_ZPX: u8 = 0xF7;
pub const ISC_ABS: u8 = 0xEF;
pub const ISC_ABSX: u8 = 0xFF;
pub const ISC_ABSY: u8 = 0xFB;
pub const ISC_INDX: u8 = 0xE3;
pub const ISC_INDY: u8 = 0xF3;
pub const SLO_ZP: u8 = 0x07;
pub const SLO_ZPX: u8 = 0x17;
pub const SLO_ABS: u8 = 0x0F;
pub const SLO_ABSX: u8 = 0x1F;
pub const SLO_ABSY: u8 = 0x1B;
pub const SLO_INDX: u8 = 0x03;
pub const SLO_INDY: u8 = 0x13;
pub const RLA_ZP: u8 = 0x27;
pub const RLA_ZPX: u8 = 0x37;
pub const RLA_ABS: u8 = 0x2F;
pub const RLA_ABSX: u8 = 0x3F;
pub const RLA_ABSY: u8 = 0x3B;
pub const RLA_INDX: u8 = 0x23;
pub const RLA_INDY: u8 = 0x33;
pub const SRE_ZP: u8 = 0x47;
pub const SRE_ZPX: u8 = 0x57;
pub const SRE_ABS: u8 = 0x4F;
pub const SRE_ABSX: u8 = 0x5F;
pub const SRE_ABSY: u8 = 0x5B;
pub const SRE_INDX: u8 = 0x43;
pub const SRE_INDY: u8 = 0x53;
pub const RRA_ZP: u8 = 0x67;
pub const RRA_ZPX: u8 = 0x77;
pub const RRA_ABS: u8 = 0x6F;
pub const RRA_ABSX: u8 = 0x7F;
pub const RRA_ABSY: u8 = 0x7B;
pub const RRA_INDX: u8 = 0x63;
pub const RRA_INDY: u8 = 0x73;
pub const NOP: u8 = 0xEA;

/// The operation and addressing mode that each supported opcode selects;
/// `None` for an opcode outside the documented set and the undocumented
/// ones this processor implements.
pub open spec fn decode(opcode: u8) -> Option<(Operation, Mode)> {
    match opcode {
        LDA_IMM => Some((Operation::Lda, Mode::Immediate)),
        LDA_ZP => Some((Operation::Lda, Mode::ZeroPage)),
        LDA_ZPX => Some((Operation::Lda, Mode::ZeroPageX)),
        LDA_ABS => Some((Operation::Lda, Mode::Absolute)),
        LDA_ABSX => Some((Operation::Lda, Mode::AbsoluteXRead)),
        LDA_ABSY => Some((Operation::Lda, Mode::AbsoluteYRead)),
        LDA_INDX => Some((Operation::Lda, Mode::IndirectX)),
        LDA_INDY => Some((Operation::Lda, Mode::IndirectYRead)),
        LDX_IMM => Some((Operation::Ldx, Mode::Immediate)),
        LDX_ZP => Some((Operation::Ldx, Mode::ZeroPage)),
        LDX_ZPY => Some((Operation::Ldx, Mode::ZeroPageY)),
        LDX_ABS => Some((Operation::Ldx, Mode::Absolute)),
        LDX_ABSY => Some((Operation::Ldx, Mode::AbsoluteYRead)),
        LDY_IMM => Some((Operation::Ldy, Mode::Immediate)),
        LDY_ZP => Some((Operation::Ldy, Mode::ZeroPage)),
        LDY_ZPX => Some((Operation::Ldy, Mode::ZeroPageX)),
        LDY_ABS => Some((Operation::Ldy, Mode::Absolute)),
        LDY_ABSX => Some((Operation::Ldy, Mode::AbsoluteXRead)),
        STA_ZP => Some((Operation::Sta, Mode::ZeroPage)),
        STA_ZPX => Some((Operation::Sta, Mode::ZeroPageX)),
        STA_ABS => Some((Operation::Sta, Mode::Absolute)),
        STA_ABSX => Some((Operation::Sta, Mode::AbsoluteX)),
        STA_ABSY => Some((Operation::Sta, Mode::AbsoluteY)),
        STA_INDX => Some((Operation::Sta, Mode::IndirectX)),
        STA_INDY => Some((Operation::Sta, Mode::IndirectY)),
        STX_ZP => Some((Operation::Stx, Mode::ZeroPage)),
        STX_ZPY => Some((Operation::Stx, Mode::ZeroPageY)),
        STX_ABS => Some((Operation::Stx, Mode::Absolute)),
        STY_ZP => Some((Operation::Sty, Mode::ZeroPage)),
        STY_ZPX => Some((Operation::Sty, Mode::ZeroPageX)),
        STY_ABS => Some((Operation::Sty, Mode::Absolute)),
        TAX => Some((Operation::Tax, Mode::Implied)),
        TXA => Some((Operation::Txa, Mode::Implied)),
        TAY => Some((Operation::Tay, Mode::Implied)),
        TYA => Some((Operation::Tya, Mode::Implied)),
        TSX => Some((Operation::Tsx, Mode::Implied)),
        TXS => Some((Operation::Txs, Mode::Implied)),
        PHA => Some((Operation::Pha, Mode::Implied)),
        PHP => Some((Operation::Php, Mode::Implied)),
        PLA => Some((Operation::Pla, Mode::Implied)),
        PLP => Some((Operation::Plp, Mode::Implied)),
        ORA_IMM => Some((Operation::Ora, Mode::Immediate)),
        ORA_ZP => Some((Operation::Ora, Mode::ZeroPage)),
        ORA_ZPX => Some((Operation::Ora, Mode::ZeroPageX)),
        ORA_ABS => Some((Operation::Ora, Mode::Absolute)),
        ORA_ABSX => Some((Operation::Ora, Mode::AbsoluteXRead)),
        ORA_ABSY => Some((Operation::Ora, Mode::AbsoluteYRead)),
        ORA_INDX => Some((Operation::Ora, Mode::IndirectX)),
        ORA_INDY => Some((Operation::Ora, Mode::IndirectYRead)),
        AND_IMM => Some((Operation::And, Mode::Immediate)),
        AND_ZP => Some((Operation::And, Mode::ZeroPage)),
        AND_ZPX => Some((Operation::And, Mode::ZeroPageX)),
        AND_ABS => Some((Operation::And, Mode::Absolute)),
        AND_ABSX => Some((Operation::And, Mode::AbsoluteXRead)),
        AND_ABSY => Some((Operation::And, Mode::AbsoluteYRead)),
        AND_INDX => Some((Operation::And, Mode::IndirectX)),
        AND_INDY => Some((Operation::And, Mode::IndirectYRead)),
        EOR_IMM => Some((Operation::Eor, Mode::Immediate)),
        EOR_ZP => Some((Operation::Eor, Mode::ZeroPage)),
        EOR_ZPX => Some((Operation::Eor, Mode::ZeroPageX)),
        EOR_ABS => Some((Operation::Eor, Mode::Absolute)),
        EOR_ABSX => Some((Operation::Eor, Mode::AbsoluteXRead)),
        EOR_ABSY => Some((Operation::Eor, Mode::AbsoluteYRead)),
        EOR_INDX => Some((Operation::Eor, Mode::IndirectX)),
        EOR_INDY => Some((Operation::Eor, Mode::IndirectYRead)),
        BIT_ZP => Some((Operation::Bit, Mode::ZeroPage)),
        BIT_ABS => Some((Operation::Bit, Mode::Absolute)),
        ADC_IMM => Some((Operation::Adc, Mode::Immediate)),
        ADC_ZP => Some((Operation::Adc, Mode::ZeroPage)),
        ADC_ZPX => Some((Operation::Adc, Mode::ZeroPageX)),
        ADC_ABS => Some((Operation::Adc, Mode::Absolute)),
        ADC_ABSX => Some((Operation::Adc, Mode::AbsoluteXRead)),
        ADC_ABSY => Some((Operation::Adc, Mode::AbsoluteYRead)),
        ADC_INDX => Some((Operation::Adc, Mode::IndirectX)),
        ADC_INDY => Some((Operation::Adc, Mode::IndirectYRead)),
        SBC_IMM | 0xEB => Some((Operation::Sbc, Mode::Immediate)),
        SBC_ZP => Some((Operation::Sbc, Mode::ZeroPage)),
        SBC_ZPX => Some((Operation::Sbc, Mode::ZeroPageX)),
        SBC_ABS => Some((Operation::Sbc, Mode::Absolute)),
        SBC_ABSX => Some((Operation::Sbc, Mode::AbsoluteXRead)),
        SBC_ABSY => Some((Operation::Sbc, Mode::AbsoluteYRead)),
        SBC_INDX => Some((Operation::Sbc, Mode::IndirectX)),
        SBC_INDY => Some((Operation::Sbc, Mode::IndirectYRead)),
        CMP_IMM => Some((Operation::Cmp, Mode::Immediate)),
        CMP_ZP => Some((Operation::Cmp, Mode::ZeroPage)),
        CMP_ZPX => Some((Operation::Cmp, Mode::ZeroPageX)),
        CMP_ABS => Some((Operation::Cmp, Mode::Absolute)),
        CMP_ABSX => Some((Operation::Cmp, Mode::AbsoluteXRead)),
        CMP_ABSY => Some((Operation::Cmp, Mode::AbsoluteYRead)),
        CMP_INDX => Some((Operation::Cmp, Mode::IndirectX)),
        CMP_INDY => Some((Operation::Cmp, Mode::IndirectYRead)),
        CPX_IMM => Some((Operation::Cpx, Mode::Immediate)),
        CPX_ZP => Some((Operation::Cpx, Mode::ZeroPage)),
        CPX_ABS => Some((Operation::Cpx, Mode::Absolute)),
        CPY_IMM => Some((Operation::Cpy, Mode::Immediate)),
        CPY_ZP => Some((Operation::Cpy, Mode::ZeroPage)),
        CPY_ABS => Some((Operation::Cpy, Mode::Absolute)),
        INC_ZP => Some((Operation::Inc, Mode::ZeroPage)),
        INC_ZPX => Some((Operation::Inc, Mode::ZeroPageX)),
        INC_ABS => Some((Operation::Inc, Mode::Absolute)),
        INC_ABSX => Some((Operation::Inc, Mode::AbsoluteX)),
        DEC_ZP => Some((Operation::Dec, Mode::ZeroPage)),
        DEC_ZPX => Some((Operation::Dec, Mode::ZeroPageX)),
        DEC_ABS => Some((Operation::Dec, Mode::Absolute)),
        DEC_ABSX => Some((Operation::Dec, Mode::AbsoluteX)),
        INX => Some((Operation::Inx, Mode::Implied)),
        INY => Some((Operation::Iny, Mode::Implied)),
        DEX => Some((Operation::Dex, Mode::Implied)),
        DEY => Some((Operation::Dey, Mode::Implied)),
        ASL => Some((Operation::AslA, Mode::Implied)),
        ASL_ZP => Some((Operation::Asl, Mode::ZeroPage)),
        ASL_ZPX => Some((Operation::Asl, Mode::ZeroPageX)),
        ASL_ABS => Some((Operation::Asl, Mode::Absolute)),
        ASL_ABSX => Some((Operation::Asl, Mode::AbsoluteX)),
        LSR => Some((Operation::LsrA, Mode::Implied)),
        LSR_ZP => Some((Operation::Lsr, Mode::ZeroPage)),
        LSR_ZPX => Some((Operation::Lsr, Mode::ZeroPageX)),
        LSR_ABS => Some((Operation::Lsr, Mode::Absolute)),
        LSR_ABSX => Some((Operation::Lsr, Mode::AbsoluteX)),
        ROL => Some((Operation::RolA, Mode::Implied)),
        ROL_ZP => Some((Operation::Rol, Mode::ZeroPage)),
        ROL_ZPX => Some((Operation::Rol, Mode::ZeroPageX)),
        ROL_ABS => Some((Operation::Rol, Mode::Absolute)),
        ROL_ABSX => Some((Operation::Rol, Mode::AbsoluteX)),
        ROR => Some((Operation::RorA, Mode::Implied)),
        ROR_ZP => Some((Operation::Ror, Mode::ZeroPage)),
        ROR_ZPX => Some((Operation::Ror, Mode::ZeroPageX)),
        ROR_ABS => Some((Operation::Ror, Mode::Absolute)),
        ROR_ABSX => Some((Operation::Ror, Mode::AbsoluteX)),
        JSR => Some((Operation::Jsr, Mode::Absolute)),
        RTS => Some((Operation::Rts, Mode::Implied)),
        JMP_ABS => Some((Operation::Jmp, Mode::Absolute)),
        JMP_IND => Some((Operation::Jmp, Mode::Indirect)),
        BPL => Some((Operation::Bpl, Mode::Relative)),
        BMI => Some((Operation::Bmi, Mode::Relative)),
        BVC => Some((Operation::Bvc, Mode::Relative)),
        BVS => Some((Operation::Bvs, Mode::Relative)),
        BCC => Some((Operation::Bcc, Mode::Relative)),
        BCS => Some((Operation::Bcs, Mode::Relative)),
        BNE => Some((Operation::Bne, Mode::Relative)),
        BEQ => Some((Operation::Beq, Mode::Relative)),
        CLC => Some((Operation::Clc, Mode::Implied)),
        CLD => Some((Operation::Cld, Mode::Implied)),
        CLI => Some((Operation::Cli, Mode::Implied)),
        CLV => Some((Operation::Clv, Mode::Implied)),
        SEC => Some((Operation::Sec, Mode::Implied)),
        SED => Some((Operation::Sed, Mode::Implied)),
        SEI => Some((Operation::Sei, Mode::Implied)),
        BRK => Some((Operation::Brk, Mode::Implied)),
        RTI => Some((Operation::Rti, Mode::Implied)),
        LAX_ZP => Some((Operation::Lax, Mode::ZeroPage)),
        LAX_ZPY => Some((Operation::Lax, Mode::ZeroPageY)),
        LAX_ABS => Some((Operation::Lax, Mode::Absolute)),
        LAX_ABSY => Some((Operation::Lax, Mode::AbsoluteYRead)),
        LAX_INDX => Some((Operation::Lax, Mode::IndirectX)),
        LAX_INDY => Some((Operation::Lax, Mode::IndirectYRead)),
        SAX_ZP => Some((Operation::Sax, Mode::ZeroPage)),
        SAX_ZPY => Some((Operation::Sax, Mode::ZeroPageY)),
        SAX_ABS => Some((Operation::Sax, Mode::Absolute)),
        SAX_INDX => Some((Operation::Sax, Mode::IndirectX)),
        DCP_ZP => Some((Operation::Dcp, Mode::ZeroPage)),
        DCP_ZPX => Some((Operation::Dcp, Mode::ZeroPageX)),
        DCP_ABS => Some((Operation::Dcp, Mode::Absolute)),
        DCP_ABSX => Some((Operation::Dcp, Mode::AbsoluteX)),
        DCP_ABSY => Some((Operation::Dcp, Mode::AbsoluteY)),
        DCP_INDX => Some((Operation::Dcp, Mode::IndirectX)),
        DCP_INDY => Some((Operation::Dcp, Mode::IndirectY)),
        ISC_ZP => Some((Operation::Isc, Mode::ZeroPage)),
        ISC_ZPX => Some((Operation::Isc, Mode::ZeroPageX)),
        ISC_ABS => Some((Operation::Isc, Mode::Absolute)),
        ISC_ABSX => Some((Operation::Isc, Mode::AbsoluteX)),
        ISC_ABSY => Some((Operation::Isc, Mode::AbsoluteY)),
        ISC_INDX => Some((Operation::Isc, Mode::IndirectX)),
        ISC_INDY => Some((Operation::Isc, Mode::IndirectY)),
        SLO_ZP => Some((Operation::Slo, Mode::ZeroPage)),
        SLO_ZPX => Some((Operation::Slo, Mode::ZeroPageX)),
        SLO_ABS => Some((Operation::Slo, Mode::Absolute)),
        SLO_ABSX => Some((Operation::Slo, Mode::AbsoluteX)),
        SLO_ABSY => Some((Operation::Slo, Mode::AbsoluteY)),
        SLO_INDX => Some((Operation::Slo, Mode::IndirectX)),
        SLO_INDY => Some((Operation::Slo, Mode::IndirectY)),
        RLA_ZP => Some((Operation::Rla, Mode::ZeroPage)),
        RLA_ZPX => Some((Operation::Rla, Mode::ZeroPageX)),
        RLA_ABS => Some((Operation::Rla, Mode::Absolute)),
        RLA_ABSX => Some((Operation::Rla, Mode::AbsoluteX)),
        RLA_ABSY => Some((Operation::Rla, Mode::AbsoluteY)),
        RLA_INDX => Some((Operation::Rla, Mode::IndirectX)),
        RLA_INDY => Some((Operation::Rla, Mode::IndirectY)),
        SRE_ZP => Some((Operation::Sre, Mode::ZeroPage)),
        SRE_ZPX => Some((Operation::Sre, Mode::ZeroPageX)),
        SRE_ABS => Some((Operation::Sre, Mode::Absolute)),
        SRE_ABSX => Some((Operation::Sre, Mode::AbsoluteX)),
        SRE_ABSY => Some((Operation::Sre, Mode::AbsoluteY)),
        SRE_INDX => Some((Operation::Sre, Mode::IndirectX)),
        SRE_INDY => Some((Operation::Sre, Mode::IndirectY)),
        RRA_ZP => Some((Operation::Rra, Mode::ZeroPage)),
        RRA_ZPX => Some((Operation::Rra, Mode::ZeroPageX)),
        RRA_ABS => Some((Operation::Rra, Mode::Absolute)),
        RRA_ABSX => Some((Operation::Rra, Mode::AbsoluteX)),
        RRA_ABSY => Some((Operation::Rra, Mode::AbsoluteY)),
        RRA_INDX => Some((Operation::Rra, Mode::IndirectX)),
        RRA_INDY => Some((Operation::Rra, Mode::IndirectY)),
        NOP => Some((Operation::Nop, Mode::Implied)),
        0x04 | 0x44 | 0x64 => Some((Operation::Nop, Mode::ZeroPage)),
        0x0C => Some((Operation::Nop, Mode::Absolute)),
        0x14 | 0x34 | 0x54 | 0x74 | 0xD4 | 0xF4 => Some((Operation::Nop, Mode::ZeroPageX)),
        0x1C | 0x3C | 0x5C | 0x7C | 0xDC | 0xFC => Some((Operation::Nop, Mode::AbsoluteXRead)),
        0x1A | 0x3A | 0x5A | 0x7A | 0xDA | 0xFA => Some((Operation::Nop, Mode::Implied)),
        0x80 => Some((Operation::Nop, Mode::Immediate)),
        _ => None,
    }
}

/// The opcode is one this processor executes.
pub fn is_supported(opcode: u8) -> (r: bool)
    ensures
        r == decode(opcode).is_some(),
{
    match opcode {
        LDA_IMM | LDA_ZP | LDA_ZPX | LDA_ABS | LDA_ABSX | LDA_ABSY | LDA_INDX | LDA_INDY |
        LDX_IMM | LDX_ZP | LDX_ZPY | LDX_ABS | LDX_ABSY | LDY_IMM | LDY_ZP | LDY_ZPX |
        LDY_ABS | LDY_ABSX | STA_ZP | STA_ZPX | STA_ABS | STA_ABSX | STA_ABSY | STA_INDX |
        STA_INDY | STX_ZP | STX_ZPY | STX_ABS | STY_ZP | STY_ZPX | STY_ABS | TAX | TXA | TAY |
        TYA | TSX | TXS | PHA | PHP | PLA | PLP | ORA_IMM | ORA_ZP | ORA_ZPX | ORA_ABS |
        ORA_ABSX | ORA_ABSY | ORA_INDX | ORA_INDY | AND_IMM | AND_ZP | AND_ZPX | AND_ABS |
        AND_ABSX | AND_ABSY | AND_INDX | AND_INDY | EOR_IMM | EOR_ZP | EOR_ZPX | EOR_ABS |
        EOR_ABSX | EOR_ABSY | EOR_INDX | EOR_INDY | BIT_ZP | BIT_ABS | ADC_IMM | ADC_ZP |
        ADC_ZPX | ADC_ABS | ADC_ABSX | ADC_ABSY | ADC_INDX | ADC_INDY | SBC_IMM | 0xEB |
        SBC_ZP | SBC_ZPX | SBC_ABS | SBC_ABSX | SBC_ABSY | SBC_INDX | SBC_INDY | CMP_IMM |
        CMP_ZP | CMP_ZPX | CMP_ABS | CMP_ABSX | CMP_ABSY | CMP_INDX | CMP_INDY | CPX_IMM |
        CPX_ZP | CPX_ABS | CPY_IMM | CPY_ZP | CPY_ABS | INC_ZP | INC_ZPX | INC_ABS | INC_ABSX |
        DEC_ZP | DEC_ZPX | DEC_ABS | DEC_ABSX | INX | INY | DEX | DEY | ASL | ASL_ZP |
        ASL_ZPX | ASL_ABS | ASL_ABSX | LSR | LSR_ZP | LSR_ZPX | LSR_ABS | LSR_ABSX | ROL |
        ROL_ZP | ROL_ZPX | ROL_ABS | ROL_ABSX | ROR | ROR_ZP | ROR_ZPX | ROR_ABS | ROR_ABSX |
        JSR | RTS | JMP_ABS | JMP_IND | BPL | BMI | BVC | BVS | BCC | BCS | BNE | BEQ | CLC |
        CLD | CLI | CLV | SEC | SED | SEI | BRK | RTI | LAX_ZP | LAX_ZPY | LAX_ABS | LAX_ABSY |
        LAX_INDX | LAX_INDY | SAX_ZP | SAX_ZPY | SAX_ABS | SAX_INDX | DCP_ZP | DCP_ZPX |
        DCP_ABS | DCP_ABSX | DCP_ABSY | DCP_INDX | DCP_INDY | ISC_ZP | ISC_ZPX | ISC_ABS |
        ISC_ABSX | ISC_ABSY | ISC_INDX | ISC_INDY | SLO_ZP | SLO_ZPX | SLO_ABS | SLO_ABSX |
        SLO_ABSY | SLO_INDX | SLO_INDY | RLA_ZP | RLA_ZPX | RLA_ABS | RLA_ABSX | RLA_ABSY |
        RLA_INDX | RLA_INDY | SRE_ZP | SRE_ZPX | SRE_ABS | SRE_ABSX | SRE_ABSY | SRE_INDX |
        SRE_INDY | RRA_ZP | RRA_ZPX | RRA_ABS | RRA_ABSX | RRA_ABSY | RRA_INDX | RRA_INDY |
        NOP | 0x04 | 0x44 | 0x64 | 0x0C | 0x14 | 0x34 | 0x54 | 0x74 | 0xD4 | 0xF4 | 0x1C |
        0x3C | 0x5C | 0x7C | 0xDC | 0xFC | 0x1A | 0x3A | 0x5A | 0x7A | 0xDA | 0xFA | 0x80 => true,
        _ => false,
    }
}

} // verus!
