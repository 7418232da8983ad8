//! Decoding: from the opcode at the program counter to an operation and
//! its resolved operand, with the cycles the instruction costs.

use crate::cpu::instructions::arithmetic::signed;
use crate::cpu::instructions::InstrArg;
use crate::cpu::{concat, concat_bytes, CpuModel, CPU};
use crate::Fault;
use vstd::prelude::*;

verus! {

/// How an instruction finds its operand.
#[derive(Clone, Copy, PartialEq, Eq, Structural, Debug)]
pub enum AddrMode {
    Implied,
    Immediate,
    Relative,
    Absolute,
    AbsoluteX,
    AbsoluteY,
    ZeroPage,
    ZeroPageX,
    ZeroPageY,
    Indirect,
    IndirectX,
    IndirectY,
}

/// The operations. `Unimpl` stands for every opcode without defined
/// behaviour.
#[derive(Clone, Copy, PartialEq, Eq, Structural, Debug)]
pub enum Instr {
    Adc,
    And,
    Asl,
    Bcc,
    Bcs,
    Beq,
    Bit,
    Bmi,
    Bne,
    Bpl,
    Brk,
    Bvc,
    Bvs,
    Clc,
    Cld,
    Cli,
    Clv,
    Cmp,
    Cpx,
    Cpy,
    Dec,
    Dex,
    Dey,
    Eor,
    Inc,
    Inx,
    Iny,
    Jmp,
    Jsr,
    Lax,
    Lda,
    Ldx,
    Ldy,
    Lsr,
    Nop,
    Ora,
    Pha,
    Php,
    Pla,
    Plp,
    Rol,
    Ror,
    Rti,
    Rts,
    Sbc,
    Sec,
    Sed,
    Sei,
    Sta,
    Stx,
    Sty,
    Tax,
    Tay,
    Tsx,
    Txa,
    Txs,
    Tya,
    Unimpl,
}

/// An operation with its operand.
#[derive(Clone, Copy, PartialEq, Eq, Structural, Debug)]
pub struct Op {
    pub instr: Instr,
    pub arg: InstrArg,
}

/// A decoded instruction and the cycles it takes.
#[derive(Clone, Copy, PartialEq, Eq, Structural, Debug)]
pub struct DecodeResult {
    pub num_cycles: usize,
    pub op: Op,
}

/// The cycles that each opcode takes, before any penalty.
pub const CYCLE_TABLE: [usize; 256] = [
    /* 0x00 */ 7, 6, 2, 8, 3, 3, 5, 5, 3, 2, 2, 2, 4, 4, 6, 6,
    /* 0x10 */ 2, 5, 2, 8, 4, 4, 6, 6, 2, 4, 2, 7, 4, 4, 7, 7,
    /* 0x20 */ 6, 6, 2, 8, 3, 3, 5, 5, 4, 2, 2, 2, 4, 4, 6, 6,
    /* 0x30 */ 2, 5, 2, 8, 4, 4, 6, 6, 2, 4, 2, 7, 4, 4, 7, 7,
    /* 0x40 */ 6, 6, 2, 8, 3, 3, 5, 5, 3, 2, 2, 2, 3, 4, 6, 6,
    /* 0x50 */ 2, 5, 2, 8, 4, 4, 6, 6, 2, 4, 2, 7, 4, 4, 7, 7,
    /* 0x60 */ 6, 6, 2, 8, 3, 3, 5, 5, 4, 2, 2, 2, 5, 4, 6, 6,
    /* 0x70 */ 2, 5, 2, 8, 4, 4, 6, 6, 2, 4, 2, 7, 4, 4, 7, 7,
    /* 0x80 */ 2, 6, 2, 6, 3, 3, 3, 3, 2, 2, 2, 2, 4, 4, 4, 4,
    /* 0x90 */ 2, 6, 2, 6, 4, 4, 4, 4, 2, 5, 2, 5, 5, 5, 5, 5,
    /* 0xA0 */ 2, 6, 2, 6, 3, 3, 3, 3, 2, 2, 2, 2, 4, 4, 4, 4,
    /* 0xB0 */ 2, 5, 2, 5, 4, 4, 4, 4, 2, 4, 2, 4, 4, 4, 4, 4,
    /* 0xC0 */ 2, 6, 2, 8, 3, 3, 5, 5, 2, 2, 2, 2, 4, 4, 6, 6,
    /* 0xD0 */ 2, 5, 2, 8, 4, 4, 6, 6, 2, 4, 2, 7, 4, 4, 7, 7,
    /* 0xE0 */ 2, 6, 3, 8, 3, 3, 5, 5, 2, 2, 2, 2, 4, 4, 6, 6,
    /* 0xF0 */ 2, 5, 2, 8, 4, 4, 6, 6, 2, 4, 2, 7, 4, 4, 7, 7,
];

/// The addressing mode and the operation of each opcode.
pub const OPS: [(AddrMode, Instr); 256] = [
    /* 0x00 */ (AddrMode::Implied, Instr::Brk),
    /* 0x01 */ (AddrMode::IndirectX, Instr::Ora),
    /* 0x02 */ (AddrMode::Implied, Instr::Unimpl),
    /* 0x03 */ (AddrMode::Implied, Instr::Unimpl),
    /* 0x04 */ (AddrMode::ZeroPage, Instr::Nop),
    /* 0x05 */ (AddrMode::ZeroPage, Instr::Ora),
    /* 0x06 */ (AddrMode::ZeroPage, Instr::Asl),
    /* 0x07 */ (AddrMode::Implied, Instr::Unimpl),
    /* 0x08 */ (AddrMode::Implied, Instr::Php),
    /* 0x09 */ (AddrMode::Immediate, Instr::Ora),
    /* 0x0A */ (AddrMode::Implied, Instr::Asl),
    /* 0x0B */ (AddrMode::Implied, Instr::Unimpl),
    /* 0x0C */ (AddrMode::Absolute, Instr::Nop),
    /* 0x0D */ (AddrMode::Absolute, Instr::Ora),
    /* 0x0E */ (AddrMode::Absolute, Instr::Asl),
    /* 0x0F */ (AddrMode::Implied, Instr::Unimpl),
    /* 0x10 */ (AddrMode::Relative, Instr::Bpl),
    /* 0x11 */ (AddrMode::IndirectY, Instr::Ora),
    /* 0x12 */ (AddrMode::Implied, Instr::Unimpl),
    /* 0x13 */ (AddrMode::Implied, Instr::Unimpl),
    /* 0x14 */ (AddrMode::ZeroPageX, Instr::Nop),
    /* 0x15 */ (AddrMode::ZeroPageX, Instr::Ora),
    /* 0x16 */ (AddrMode::ZeroPageX, Instr::Asl),
    /* 0x17 */ (AddrMode::Implied, Instr::Unimpl),
    /* 0x18 */ (AddrMode::Implied, Instr::Clc),
    /* 0x19 */ (AddrMode::AbsoluteY, Instr::Ora),
    /* 0x1A */ (AddrMode::Implied, Instr::Nop),
    /* 0x1B */ (AddrMode::Implied, Instr::Unimpl),
    /* 0x1C */ (AddrMode::AbsoluteX, Instr::Nop),
    /* 0x1D */ (AddrMode::AbsoluteX, Instr::Ora),
    /* 0x1E */ (AddrMode::AbsoluteX, Instr::Asl),
    /* 0x1F */ (AddrMode::Implied, Instr::Unimpl),
    /* 0x20 */ (AddrMode::Absolute, Instr::Jsr),
    /* 0x21 */ (AddrMode::IndirectX, Instr::And),
    /* 0x22 */ (AddrMode::Implied, Instr::Unimpl),
    /* 0x23 */ (AddrMode::Implied, Instr::Unimpl),
    /* 0x24 */ (AddrMode::ZeroPage, Instr::Bit),
    /* 0x25 */ (AddrMode::ZeroPage, Instr::And),
    /* 0x26 */ (AddrMode::ZeroPage, Instr::Rol),
    /* 0x27 */ (AddrMode::Implied, Instr::Unimpl),
    /* 0x28 */ (AddrMode::Implied, Instr::Plp),
    /* 0x29 */ (AddrMode::Immediate, Instr::And),
    /* 0x2A */ (AddrMode::Implied, Instr::Rol),
    /* 0x2B */ (AddrMode::Implied, Instr::Unimpl),
    /* 0x2C */ (AddrMode::Absolute, Instr::Bit),
    /* 0x2D */ (AddrMode::Absolute, Instr::And),
    /* 0x2E */ (AddrMode::Absolute, Instr::Rol),
    /* 0x2F */ (AddrMode::Implied, Instr::Unimpl),
    /* 0x30 */ (AddrMode::Relative, Instr::Bmi),
    /* 0x31 */ (AddrMode::IndirectY, Instr::And),
    /* 0x32 */ (AddrMode::Implied, Instr::Unimpl),
    /* 0x33 */ (AddrMode::Implied, Instr::Unimpl),
    /* 0x34 */ (AddrMode::ZeroPageX, Instr::Nop),
    /* 0x35 */ (AddrMode::ZeroPageX, Instr::And),
    /* 0x36 */ (AddrMode::ZeroPageX, Instr::Rol),
    /* 0x37 */ (AddrMode::Implied, Instr::Unimpl),
    /* 0x38 */ (AddrMode::Implied, Instr::Sec),
    /* 0x39 */ (AddrMode::AbsoluteY, Instr::And),
    /* 0x3A */ (AddrMode::Implied, Instr::Nop),
    /* 0x3B */ (AddrMode::Implied, Instr::Unimpl),
    /* 0x3C */ (AddrMode::AbsoluteX, Instr::Nop),
    /* 0x3D */ (AddrMode::AbsoluteX, Instr::And),
    /* 0x3E */ (AddrMode::AbsoluteX, Instr::Rol),
    /* 0x3F */ (AddrMode::Implied, Instr::Unimpl),
    /* 0x40 */ (AddrMode::Implied, Instr::Rti),
    /* 0x41 */ (AddrMode::IndirectX, Instr::Eor),
    /* 0x42 */ (AddrMode::Implied, Instr::Unimpl),
    /* 0x43 */ (AddrMode::Implied, Instr::Unimpl),
    /* 0x44 */ (AddrMode::ZeroPage, Instr::Nop),
    /* 0x45 */ (AddrMode::ZeroPage, Instr::Eor),
    /* 0x46 */ (AddrMode::ZeroPage, Instr::Lsr),
    /* 0x47 */ (AddrMode::Implied, Instr::Unimpl),
    /* 0x48 */ (AddrMode::Implied, Instr::Pha),
    /* 0x49 */ (AddrMode::Immediate, Instr::Eor),
    /* 0x4A */ (AddrMode::Implied, Instr::Lsr),
    /* 0x4B */ (AddrMode::Implied, Instr::Unimpl),
    /* 0x4C */ (AddrMode::Absolute, Instr::Jmp),
    /* 0x4D */ (AddrMode::Absolute, Instr::Eor),
    /* 0x4E */ (AddrMode::Absolute, Instr::Lsr),
    /* 0x4F */ (AddrMode::Implied, Instr::Unimpl),
    /* 0x50 */ (AddrMode::Relative, Instr::Bvc),
    /* 0x51 */ (AddrMode::IndirectY, Instr::Eor),
    /* 0x52 */ (AddrMode::Implied, Instr::Unimpl),
    /* 0x53 */ (AddrMode::Implied, Instr::Unimpl),
    /* 0x54 */ (AddrMode::ZeroPageX, Instr::Nop),
    /* 0x55 */ (AddrMode::ZeroPageX, Instr::Eor),
    /* 0x56 */ (AddrMode::ZeroPageX, Instr::Lsr),
    /* 0x57 */ (AddrMode::Implied, Instr::Unimpl),
    /* 0x58 */ (AddrMode::Implied, Instr::Cli),
    /* 0x59 */ (AddrMode::AbsoluteY, Instr::Eor),
    /* 0x5A */ (AddrMode::Implied, Instr::Nop),
    /* 0x5B */ (AddrMode::Implied, Instr::Unimpl),
    /* 0x5C */ (AddrMode::AbsoluteX, Instr::Nop),
    /* 0x5D */ (AddrMode::AbsoluteX, Instr::Eor),
    /* 0x5E */ (AddrMode::AbsoluteX, Instr::Lsr),
    /* 0x5F */ (AddrMode::Implied, Instr::Unimpl),
    /* 0x60 */ (AddrMode::Implied, Instr::Rts),
    /* 0x61 */ (AddrMode::IndirectX, Instr::Adc),
    /* 0x62 */ (AddrMode::Implied, Instr::Unimpl),
    /* 0x63 */ (AddrMode::Implied, Instr::Unimpl),
    /* 0x64 */ (AddrMode::ZeroPage, Instr::Nop),
    /* 0x65 */ (AddrMode::ZeroPage, Instr::Adc),
    /* 0x66 */ (AddrMode::ZeroPage, Instr::Ror),
    /* 0x67 */ (AddrMode::Implied, Instr::Unimpl),
    /* 0x68 */ (AddrMode::Implied, Instr::Pla),
    /* 0x69 */ (AddrMode::Immediate, Instr::Adc),
    /* 0x6A */ (AddrMode::Implied, Instr::Ror),
    /* 0x6B */ (AddrMode::Implied, Instr::Unimpl),
    /* 0x6C */ (AddrMode::Indirect, Instr::Jmp),
    /* 0x6D */ (AddrMode::Absolute, Instr::Adc),
    /* 0x6E */ (AddrMode::Absolute, Instr::Ror),
    /* 0x6F */ (AddrMode::Implied, Instr::Unimpl),
    /* 0x70 */ (AddrMode::Relative, Instr::Bvs),
    /* 0x71 */ (AddrMode::ZeroPageY, Instr::Adc),
    /* 0x72 */ (AddrMode::Implied, Instr::Unimpl),
    /* 0x73 */ (AddrMode::Implied, Instr::Unimpl),
    /* 0x74 */ (AddrMode::ZeroPageX, Instr::Nop),
    /* 0x75 */ (AddrMode::ZeroPageX, Instr::Adc),
    /* 0x76 */ (AddrMode::ZeroPageX, Instr::Ror),
    /* 0x77 */ (AddrMode::Implied, Instr::Unimpl),
    /* 0x78 */ (AddrMode::Implied, Instr::Sei),
    /* 0x79 */ (AddrMode::AbsoluteY, Instr::Adc),
    /* 0x7A */ (AddrMode::Implied, Instr::Nop),
    /* 0x7B */ (AddrMode::Implied, Instr::Unimpl),
    /* 0x7C */ (AddrMode::AbsoluteX, Instr::Nop),
    /* 0x7D */ (AddrMode::AbsoluteX, Instr::Adc),
    /* 0x7E */ (AddrMode::AbsoluteX, Instr::Ror),
    /* 0x7F */ (AddrMode::Implied, Instr::Unimpl),
    /* 0x80 */ (AddrMode::Immediate, Instr::Nop),
    /* 0x81 */ (AddrMode::IndirectX, Instr::Sta),
    /* 0x82 */ (AddrMode::Implied, Instr::Unimpl),
    /* 0x83 */ (AddrMode::Implied, Instr::Unimpl),
    /* 0x84 */ (AddrMode::ZeroPage, Instr::Sty),
    /* 0x85 */ (AddrMode::ZeroPage, Instr::Sta),
    /* 0x86 */ (AddrMode::ZeroPage, Instr::Stx),
    /* 0x87 */ (AddrMode::Implied, Instr::Unimpl),
    /* 0x88 */ (AddrMode::Implied, Instr::Dey),
    /* 0x89 */ (AddrMode::Implied, Instr::Unimpl),
    /* 0x8A */ (AddrMode::Implied, Instr::Txa),
    /* 0x8B */ (AddrMode::Implied, Instr::Unimpl),
    /* 0x8C */ (AddrMode::Absolute, Instr::Sty),
    /* 0x8D */ (AddrMode::Absolute, Instr::Sta),
    /* 0x8E */ (AddrMode::Absolute, Instr::Stx),
    /* 0x8F */ (AddrMode::Implied, Instr::Unimpl),
    /* 0x90 */ (AddrMode::Relative, Instr::Bcc),
    /* 0x91 */ (AddrMode::IndirectY, Instr::Sta),
    /* 0x92 */ (AddrMode::Implied, Instr::Unimpl),
    /* 0x93 */ (AddrMode::Implied, Instr::Unimpl),
    /* 0x94 */ (AddrMode::ZeroPageX, Instr::Sty),
    /* 0x95 */ (AddrMode::ZeroPageX, Instr::Sta),
    /* 0x96 */ (AddrMode::ZeroPageY, Instr::Stx),
    /* 0x97 */ (AddrMode::Implied, Instr::Unimpl),
    /* 0x98 */ (AddrMode::Implied, Instr::Tya),
    /* 0x99 */ (AddrMode::AbsoluteY, Instr::Sta),
    /* 0x9A */ (AddrMode::Implied, Instr::Txs),
    /* 0x9B */ (AddrMode::Implied, Instr::Unimpl),
    /* 0x9C */ (AddrMode::Implied, Instr::Unimpl),
    /* 0x9D */ (AddrMode::AbsoluteX, Instr::Sta),
    /* 0x9E */ (AddrMode::Implied, Instr::Unimpl),
    /* 0x9F */ (AddrMode::Implied, Instr::Unimpl),
    /* 0xA0 */ (AddrMode::Immediate, Instr::Ldy),
    /* 0xA1 */ (AddrMode::IndirectX, Instr::Lda),
    /* 0xA2 */ (AddrMode::Immediate, Instr::Ldx),
    /* 0xA3 */ (AddrMode::IndirectX, Instr::Lax),
    /* 0xA4 */ (AddrMode::ZeroPage, Instr::Ldy),
    /* 0xA5 */ (AddrMode::ZeroPage, Instr::Lda),
    /* 0xA6 */ (AddrMode::ZeroPage, Instr::Ldx),
    /* 0xA7 */ (AddrMode::ZeroPage, Instr::Lax),
    /* 0xA8 */ (AddrMode::Implied, Instr::Tay),
    /* 0xA9 */ (AddrMode::Immediate, Instr::Lda),
    /* 0xAA */ (AddrMode::Implied, Instr::Tax),
    /* 0xAB */ (AddrMode::Implied, Instr::Unimpl),
    /* 0xAC */ (AddrMode::Absolute, Instr::Ldy),
    /* 0xAD */ (AddrMode::Absolute, Instr::Lda),
    /* 0xAE */ (AddrMode::Absolute, Instr::Ldx),
    /* 0xAF */ (AddrMode::Absolute, Instr::Lax),
    /* 0xB0 */ (AddrMode::Relative, Instr::Bcs),
    /* 0xB1 */ (AddrMode::IndirectY, Instr::Lda),
    /* 0xB2 */ (AddrMode::Implied, Instr::Unimpl),
    /* 0xB3 */ (AddrMode::ZeroPageY, Instr::Lax),
    /* 0xB4 */ (AddrMode::ZeroPageX, Instr::Ldy),
    /* 0xB5 */ (AddrMode::ZeroPageX, Instr::Lda),
    /* 0xB6 */ (AddrMode::ZeroPageY, Instr::Ldx),
    /* 0xB7 */ (AddrMode::ZeroPageY, Instr::Lax),
    /* 0xB8 */ (AddrMode::Implied, Instr::Clv),
    /* 0xB9 */ (AddrMode::AbsoluteY, Instr::Lda),
    /* 0xBA */ (AddrMode::Implied, Instr::Tsx),
    /* 0xBB */ (AddrMode::Implied, Instr::Unimpl),
    /* 0xBC */ (AddrMode::AbsoluteX, Instr::Ldy),
    /* 0xBD */ (AddrMode::AbsoluteX, Instr::Lda),
    /* 0xBE */ (AddrMode::AbsoluteY, Instr::Ldx),
    /* 0xBF */ (AddrMode::AbsoluteY, Instr::Lax),
    /* 0xC0 */ (AddrMode::Immediate, Instr::Cpy),
    /* 0xC1 */ (AddrMode::IndirectX, Instr::Cmp),
    /* 0xC2 */ (AddrMode::Implied, Instr::Unimpl),
    /* 0xC3 */ (AddrMode::Implied, Instr::Unimpl),
    /* 0xC4 */ (AddrMode::ZeroPage, Instr::Cpy),
    /* 0xC5 */ (AddrMode::ZeroPage, Instr::Cmp),
    /* 0xC6 */ (AddrMode::ZeroPage, Instr::Dec),
    /* 0xC7 */ (AddrMode::Implied, Instr::Unimpl),
    /* 0xC8 */ (AddrMode::Implied, Instr::Iny),
    /* 0xC9 */ (AddrMode::Immediate, Instr::Cmp),
    /* 0xCA */ (AddrMode::Implied, Instr::Dex),
    /* 0xCB */ (AddrMode::Implied, Instr::Unimpl),
    /* 0xCC */ (AddrMode::Absolute, Instr::Cpy),
    /* 0xCD */ (AddrMode::Absolute, Instr::Cmp),
    /* 0xCE */ (AddrMode::Absolute, Instr::Dec),
    /* 0xCF */ (AddrMode::Implied, Instr::Unimpl),
    /* 0xD0 */ (AddrMode::Relative, Instr::Bne),
    /* 0xD1 */ (AddrMode::IndirectY, Instr::Cmp),
    /* 0xD2 */ (AddrMode::Implied, Instr::Unimpl),
    /* 0xD3 */ (AddrMode::Implied, Instr::Unimpl),
    /* 0xD4 */ (AddrMode::ZeroPageX, Instr::Nop),
    /* 0xD5 */ (AddrMode::ZeroPageX, Instr::Cmp),
    /* 0xD6 */ (AddrMode::ZeroPageX, Instr::Dec),
    /* 0xD7 */ (AddrMode::Implied, Instr::Unimpl),
    /* 0xD8 */ (AddrMode::Implied, Instr::Cld),
    /* 0xD9 */ (AddrMode::AbsoluteY, Instr::Cmp),
    /* 0xDA */ (AddrMode::Implied, Instr::Nop),
    /* 0xDB */ (AddrMode::Implied, Instr::Unimpl),
    /* 0xDC */ (AddrMode::AbsoluteX, Instr::Nop),
    /* 0xDD */ (AddrMode::AbsoluteX, Instr::Cmp),
    /* 0xDE */ (AddrMode::AbsoluteX, Instr::Dec),
    /* 0xDF */ (AddrMode::Implied, Instr::Unimpl),
    /* 0xE0 */ (AddrMode::Immediate, Instr::Cpx),
    /* 0xE1 */ (AddrMode::IndirectX, Instr::Sbc),
    /* 0xE2 */ (AddrMode::Implied, Instr::Unimpl),
    /* 0xE3 */ (AddrMode::Implied, Instr::Unimpl),
    /* 0xE4 */ (AddrMode::ZeroPage, Instr::Cpx),
    /* 0xE5 */ (AddrMode::ZeroPage, Instr::Sbc),
    /* 0xE6 */ (AddrMode::ZeroPage, Instr::Inc),
    /* 0xE7 */ (AddrMode::Implied, Instr::Unimpl),
    /* 0xE8 */ (AddrMode::Implied, Instr::Inx),
    /* 0xE9 */ (AddrMode::Immediate, Instr::Sbc),
    /* 0xEA */ (AddrMode::Implied, Instr::Nop),
    /* 0xEB */ (AddrMode::Implied, Instr::Unimpl),
    /* 0xEC */ (AddrMode::Absolute, Instr::Cpx),
    /* 0xED */ (AddrMode::Absolute, Instr::Sbc),
    /* 0xEE */ (AddrMode::Absolute, Instr::Inc),
    /* 0xEF */ (AddrMode::Implied, Instr::Unimpl),
    /* 0xF0 */ (AddrMode::Relative, Instr::Beq),
    /* 0xF1 */ (AddrMode::IndirectY, Instr::Sbc),
    /* 0xF2 */ (AddrMode::Implied, Instr::Unimpl),
    /* 0xF3 */ (AddrMode::Implied, Instr::Unimpl),
    /* 0xF4 */ (AddrMode::ZeroPageX, Instr::Nop),
    /* 0xF5 */ (AddrMode::ZeroPageX, Instr::Sbc),
    /* 0xF6 */ (AddrMode::ZeroPageX, Instr::Inc),
    /* 0xF7 */ (AddrMode::Implied, Instr::Unimpl),
    /* 0xF8 */ (AddrMode::Implied, Instr::Sed),
    /* 0xF9 */ (AddrMode::AbsoluteY, Instr::Sbc),
    /* 0xFA */ (AddrMode::Implied, Instr::Nop),
    /* 0xFB */ (AddrMode::Implied, Instr::Unimpl),
    /* 0xFC */ (AddrMode::AbsoluteX, Instr::Nop),
    /* 0xFD */ (AddrMode::AbsoluteX, Instr::Sbc),
    /* 0xFE */ (AddrMode::AbsoluteX, Instr::Inc),
    /* 0xFF */ (AddrMode::Implied, Instr::Unimpl),
];

impl AddrMode {
    /// Whether the mode resolves to no operand.
    pub open spec fn gives_implied(self) -> bool {
        self == AddrMode::Implied
    }

    /// Whether the mode resolves to a byte.
    pub open spec fn gives_immediate(self) -> bool {
        self == AddrMode::Immediate
    }

    /// Whether the mode resolves to an address.
    pub open spec fn gives_address(self) -> bool {
        !self.gives_implied() && !self.gives_immediate()
    }

    /// How many bytes the operand takes behind the opcode.
    pub open spec fn operand_width(self) -> int {
        match self {
            AddrMode::Implied => 0,
            AddrMode::Absolute | AddrMode::AbsoluteX | AddrMode::AbsoluteY
            | AddrMode::Indirect => 2,
            _ => 1,
        }
    }

    /// The extra cycle that an indexed mode costs when the index carries
    /// into the high byte of the address. Only the instructions that take
    /// the common number of cycles for their mode pay it: 4 for the
    /// absolute modes, 5 for the indirect one. Stores take more and pay
    /// nothing.
    pub open spec fn penalty(self, base_cycles: usize, crossed: bool) -> int {
        match self {
            AddrMode::AbsoluteX | AddrMode::AbsoluteY => if base_cycles == 4 && crossed {
                1
            } else {
                0
            },
            AddrMode::IndirectY => if base_cycles == 5 && crossed {
                1
            } else {
                0
            },
            _ => 0,
        }
    }
}

impl Instr {
    /// Whether the operation takes no operand.
    pub open spec fn takes_implied(self) -> bool {
        match self {
            Instr::Rti | Instr::Brk | Instr::Rts | Instr::Clv | Instr::Sei | Instr::Cli
            | Instr::Sed | Instr::Cld | Instr::Sec | Instr::Clc | Instr::Pla | Instr::Pha
            | Instr::Plp | Instr::Php | Instr::Txs | Instr::Tsx | Instr::Tya | Instr::Tay
            | Instr::Txa | Instr::Tax | Instr::Iny | Instr::Inx | Instr::Dey | Instr::Dex => true,
            _ => false,
        }
    }

    /// Whether the operation works on an address and nothing else.
    pub open spec fn takes_address(self) -> bool {
        match self {
            Instr::Jsr | Instr::Bit | Instr::Jmp | Instr::Bpl | Instr::Bmi | Instr::Bvc
            | Instr::Bvs | Instr::Bcc | Instr::Bcs | Instr::Bne | Instr::Beq | Instr::Inc
            | Instr::Dec | Instr::Sta | Instr::Stx | Instr::Sty => true,
            _ => false,
        }
    }

    /// Whether the operation works on the accumulator or on an address.
    pub open spec fn takes_accumulator_or_address(self) -> bool {
        match self {
            Instr::Ror | Instr::Rol | Instr::Asl | Instr::Lsr => true,
            _ => false,
        }
    }

    /// Whether the operation stores a register.
    pub open spec fn is_store(self) -> bool {
        self == Instr::Sta || self == Instr::Stx || self == Instr::Sty
    }

    /// Whether the operation is a conditional branch.
    pub open spec fn is_branch(self) -> bool {
        match self {
            Instr::Bpl | Instr::Bmi | Instr::Bvc | Instr::Bvs | Instr::Bcc | Instr::Bcs
            | Instr::Bne | Instr::Beq => true,
            _ => false,
        }
    }

    /// Whether the operation takes an operand of any shape.
    pub open spec fn takes_anything(self) -> bool {
        self == Instr::Nop || self == Instr::Unimpl
    }

    /// Whether the operation accepts an operand of the shape of `arg`. The
    /// operations that read a value take a byte or an address.
    pub open spec fn accepts(self, arg: InstrArg) -> bool {
        if self.takes_anything() {
            true
        } else if self.takes_implied() {
            arg is Implied
        } else if self.takes_address() {
            arg is Address
        } else if self.takes_accumulator_or_address() {
            arg !is Immediate
        } else {
            arg !is Implied
        }
    }

    /// Whether the operation accepts what `mode` resolves to.
    pub open spec fn accepts_mode(self, mode: AddrMode) -> bool {
        if self.takes_anything() {
            true
        } else if self.takes_implied() {
            mode.gives_implied()
        } else if self.takes_address() {
            mode.gives_address()
        } else if self.takes_accumulator_or_address() {
            !mode.gives_immediate()
        } else {
            !mode.gives_implied()
        }
    }
}

/// The address after `ptr` in the same 256-byte page: the low byte moves
/// on by one and wraps, the high byte stays.
pub open spec fn next_in_page(ptr: u16) -> u16 {
    (ptr - ptr % 0x100 + (ptr % 0x100 + 1) % 0x100) as u16
}

/// Whether adding `index` to `addr` carries into the high byte.
pub open spec fn crosses_page(addr: u16, index: u8) -> bool {
    addr % 0x100 + index > 0xFF
}

impl CpuModel {
    /// Absolute,X: the operand plus X, wrapping at 16 bits.
    pub open spec fn absolute_x(self, val: u16) -> u16 {
        ((val + self.x) % 0x1_0000) as u16
    }

    /// Absolute,Y: the operand plus Y, wrapping at 16 bits.
    pub open spec fn absolute_y(self, val: u16) -> u16 {
        ((val + self.y) % 0x1_0000) as u16
    }

    /// Zero page: the operand names an address in page 0.
    pub open spec fn zero_page(self, val: u8) -> u16 {
        val as u16
    }

    /// Zero page,X: the operand plus X, wrapping within page 0.
    pub open spec fn zero_page_x(self, val: u8) -> u16 {
        ((val + self.x) % 0x100) as u16
    }

    /// Zero page,Y: the operand plus Y, wrapping within page 0.
    pub open spec fn zero_page_y(self, val: u8) -> u16 {
        ((val + self.y) % 0x100) as u16
    }

    /// Relative: the operand is a signed offset from the program counter.
    pub open spec fn relative(self, val: u8) -> u16 {
        ((self.pc + signed(val)) % 0x1_0000) as u16
    }

    /// Indirect: the 16-bit pointer stored at `ptr`, low byte first. The
    /// high byte is read from the address after `ptr` in the same page: a
    /// pointer stored at the last byte of a page takes its high byte from
    /// the first byte of that page, not of the next one.
    pub open spec fn indirect(self, ptr: u16) -> (CpuModel, Result<u16, Fault>) {
        let (first, r) = self.read(ptr);
        match r {
            Err(fault) => (first, Err(fault)),
            Ok(low) => {
                let (second, r) = first.read(next_in_page(ptr));
                match r {
                    Err(fault) => (second, Err(fault)),
                    Ok(high) => (second, Ok(concat(high, low))),
                }
            },
        }
    }

    /// Indirect,X: the pointer stored in page 0 at the operand plus X.
    pub open spec fn indirect_x(self, val: u8) -> (CpuModel, Result<u16, Fault>) {
        self.indirect(self.zero_page_x(val))
    }

    /// Indirect,Y: the pointer stored in page 0 at the operand, plus Y,
    /// wrapping at 16 bits.
    pub open spec fn indirect_y(self, val: u8) -> (CpuModel, Result<u16, Fault>) {
        let (read, r) = self.indirect(val as u16);
        match r {
            Err(fault) => (read, Err(fault)),
            Ok(base) => (read, Ok(read.absolute_y(base))),
        }
    }

    /// The CPU after the operand bytes of an instruction in mode `mode`
    /// are fetched and resolved, with the operand and whether an index
    /// carried into the high byte of the address.
    #[verifier::opaque]
    pub open spec fn resolve(self, mode: AddrMode) -> (CpuModel, Result<(InstrArg, bool), Fault>) {
        match mode {
            AddrMode::Implied => (self, Ok((InstrArg::Implied, false))),
            AddrMode::Immediate => {
                let (fetched, r) = self.fetch();
                match r {
                    Err(fault) => (fetched, Err(fault)),
                    Ok(byte) => (fetched, Ok((InstrArg::Immediate(byte), false))),
                }
            },
            AddrMode::Relative | AddrMode::ZeroPage | AddrMode::ZeroPageX
            | AddrMode::ZeroPageY => {
                let (fetched, r) = self.fetch();
                match r {
                    Err(fault) => (fetched, Err(fault)),
                    Ok(byte) => {
                        let addr = match mode {
                            AddrMode::Relative => fetched.relative(byte),
                            AddrMode::ZeroPage => fetched.zero_page(byte),
                            AddrMode::ZeroPageX => fetched.zero_page_x(byte),
                            _ => fetched.zero_page_y(byte),
                        };
                        (fetched, Ok((InstrArg::Address(addr), false)))
                    },
                }
            },
            AddrMode::Absolute | AddrMode::AbsoluteX | AddrMode::AbsoluteY => {
                let (fetched, r) = self.fetch_word();
                match r {
                    Err(fault) => (fetched, Err(fault)),
                    Ok(word) => match mode {
                        AddrMode::Absolute => (fetched, Ok((InstrArg::Address(word), false))),
                        AddrMode::AbsoluteX => (
                            fetched,
                            Ok(
                                (
                                    InstrArg::Address(fetched.absolute_x(word)),
                                    crosses_page(word, fetched.x),
                                ),
                            ),
                        ),
                        _ => (
                            fetched,
                            Ok(
                                (
                                    InstrArg::Address(fetched.absolute_y(word)),
                                    crosses_page(word, fetched.y),
                                ),
                            ),
                        ),
                    },
                }
            },
            AddrMode::Indirect => {
                let (fetched, r) = self.fetch_word();
                match r {
                    Err(fault) => (fetched, Err(fault)),
                    Ok(word) => {
                        let (read, r) = fetched.indirect(word);
                        match r {
                            Err(fault) => (read, Err(fault)),
                            Ok(addr) => (read, Ok((InstrArg::Address(addr), false))),
                        }
                    },
                }
            },
            AddrMode::IndirectX => {
                let (fetched, r) = self.fetch();
                match r {
                    Err(fault) => (fetched, Err(fault)),
                    Ok(byte) => {
                        let (read, r) = fetched.indirect_x(byte);
                        match r {
                            Err(fault) => (read, Err(fault)),
                            Ok(addr) => (read, Ok((InstrArg::Address(addr), false))),
                        }
                    },
                }
            },
            AddrMode::IndirectY => {
                let (fetched, r) = self.fetch();
                match r {
                    Err(fault) => (fetched, Err(fault)),
                    Ok(byte) => {
                        let (read, r) = fetched.indirect(byte as u16);
                        match r {
                            Err(fault) => (read, Err(fault)),
                            Ok(base) => (
                                read,
                                Ok(
                                    (
                                        InstrArg::Address(read.absolute_y(base)),
                                        crosses_page(base, read.y),
                                    ),
                                ),
                            ),
                        }
                    },
                }
            },
        }
    }

    /// The CPU after the instruction at the program counter is fetched and
    /// decoded, with the decoded instruction.
    #[verifier::opaque]
    pub open spec fn decode(self) -> (CpuModel, Result<DecodeResult, Fault>) {
        let (fetched, r) = self.fetch();
        match r {
            Err(fault) => (fetched, Err(fault)),
            Ok(opcode) => {
                let (mode, instr) = OPS[opcode as int];
                let base_cycles = CYCLE_TABLE[opcode as int];
                let (resolved, r) = fetched.resolve(mode);
                match r {
                    Err(fault) => (resolved, Err(fault)),
                    Ok((arg, crossed)) => (
                        resolved,
                        Ok(
                            DecodeResult {
                                num_cycles: (base_cycles + mode.penalty(
                                    base_cycles,
                                    crossed,
                                )) as usize,
                                op: Op { instr, arg },
                            },
                        ),
                    ),
                }
            },
        }
    }
}

/// An index added to a zero page operand never leaves page 0, and the
/// second byte of an indirect pointer lies in the page of the first: in
/// both the carry out of the low byte is dropped.
pub proof fn lemma_addressing_stays_in_page(cpu: CpuModel, operand: u8, ptr: u16)
    ensures
        cpu.zero_page(operand) < 0x100,
        cpu.zero_page_x(operand) < 0x100,
        cpu.zero_page_y(operand) < 0x100,
        cpu.zero_page_x(operand) == if operand + cpu.x >= 0x100 {
            operand + cpu.x - 0x100
        } else {
            operand + cpu.x
        },
        next_in_page(ptr) / 0x100 == ptr / 0x100,
        next_in_page(ptr) % 0x100 == if ptr % 0x100 == 0xFF {
            0
        } else {
            ptr % 0x100 + 1
        },
{
}

/// Every opcode has an addressing mode that its operation accepts, and
/// costs between 2 and 8 cycles before penalties. The branches, and only
/// they, take their operand relative to the program counter. A store never
/// pays for a page crossing.
pub proof fn lemma_tables(opcode: u8)
    ensures
        OPS[opcode as int].1.accepts_mode(OPS[opcode as int].0),
        2 <= CYCLE_TABLE[opcode as int] <= 8,
        OPS[opcode as int].1.is_branch() <==> OPS[opcode as int].0 == AddrMode::Relative,
        OPS[opcode as int].1.is_store() ==> OPS[opcode as int].0.penalty(
            CYCLE_TABLE[opcode as int],
            true,
        ) == 0,
{
}

/// What the addressing mode of an opcode resolves to is an operand that
/// its operation accepts, and a decoded instruction costs between 2 and 9
/// cycles.
pub proof fn lemma_decode_accepted(cpu: CpuModel)
    ensures
        cpu.decode().1 matches Ok(decoded) ==> decoded.op.instr.accepts(decoded.op.arg) && 2
            <= decoded.num_cycles <= 9,
{
    reveal(CpuModel::decode);
    reveal(CpuModel::resolve);
    let (fetched, r) = cpu.fetch();
    if let Ok(opcode) = r {
        lemma_tables(opcode);
    }
}

/// Resolving an operand moves the program counter on by the width of the
/// operand: by nothing, by one byte or by two, wrapping at the end of the
/// address space. It touches no register and no flag, and it resolves to an
/// operand of the shape that the mode gives.
pub proof fn lemma_resolve_advances(cpu: CpuModel, mode: AddrMode)
    ensures
        cpu.resolve(mode).1 is Ok ==> cpu.resolve(mode).0.pc == (cpu.pc + mode.operand_width())
            % 0x1_0000,
        cpu.resolve(mode).0 == (CpuModel {
            pc: cpu.resolve(mode).0.pc,
            bus: cpu.resolve(mode).0.bus,
            ..cpu
        }),
        cpu.resolve(mode).1 matches Ok((arg, _)) ==> (arg is Implied <==> mode.gives_implied())
            && (arg is Immediate <==> mode.gives_immediate()) && (arg is Address
            <==> mode.gives_address()),
{
    reveal(CpuModel::resolve);
    match mode {
        AddrMode::Implied => {},
        AddrMode::Immediate | AddrMode::Relative | AddrMode::ZeroPage | AddrMode::ZeroPageX
        | AddrMode::ZeroPageY => {
            lemma_fetch_advances(cpu, 0);
        },
        AddrMode::Absolute | AddrMode::AbsoluteX | AddrMode::AbsoluteY => {
            lemma_fetch_advances(cpu, 0);
        },
        AddrMode::Indirect => {
            lemma_fetch_advances(cpu, 0);
            if let Ok(word) = cpu.fetch_word().1 {
                lemma_fetch_advances(cpu.fetch_word().0, word);
            }
        },
        AddrMode::IndirectX => {
            lemma_fetch_advances(cpu, 0);
            if let Ok(byte) = cpu.fetch().1 {
                lemma_fetch_advances(cpu.fetch().0, cpu.fetch().0.zero_page_x(byte));
            }
        },
        AddrMode::IndirectY => {
            lemma_fetch_advances(cpu, 0);
            if let Ok(byte) = cpu.fetch().1 {
                lemma_fetch_advances(cpu.fetch().0, byte as u16);
            }
        },
    }
}

proof fn lemma_fetch_advances(cpu: CpuModel, ptr: u16)
    ensures
        cpu.fetch().0 == (CpuModel { pc: cpu.fetch().0.pc, bus: cpu.fetch().0.bus, ..cpu }),
        cpu.fetch().1 is Ok ==> cpu.fetch().0.pc == (cpu.pc + 1) % 0x1_0000,
        cpu.fetch_word().0 == (CpuModel {
            pc: cpu.fetch_word().0.pc,
            bus: cpu.fetch_word().0.bus,
            ..cpu
        }),
        cpu.fetch_word().1 is Ok ==> cpu.fetch_word().0.pc == (cpu.pc + 2) % 0x1_0000,
        cpu.indirect(ptr).0 == (CpuModel { bus: cpu.indirect(ptr).0.bus, ..cpu }),
{
}

/// Decoding touches neither the count of cycles run nor the pending
/// interrupt.
pub proof fn lemma_decode_keeps(cpu: CpuModel)
    ensures
        cpu.decode().0.cycles == cpu.cycles,
        cpu.decode().0.interrupt == cpu.interrupt,
{
    reveal(CpuModel::decode);
    reveal(CpuModel::resolve);
}

/// Splits an opcode's entry of the tables.
fn lookup(opcode: u8) -> (entry: (AddrMode, Instr, usize))
    ensures
        (entry.0, entry.1) == OPS[opcode as int],
        entry.2 == CYCLE_TABLE[opcode as int],
        2 <= entry.2 <= 8,
{
    proof {
        lemma_tables(opcode);
    }
    let op: (AddrMode, Instr) = OPS[opcode as usize];
    (op.0, op.1, CYCLE_TABLE[opcode as usize])
}

/// Fetches the instruction at the program counter and resolves its
/// operand.
pub fn fetch_and_decode(cpu: &mut CPU) -> (r: Result<DecodeResult, Fault>)
    ensures
        (final(cpu)@, r) == old(cpu)@.decode(),
        r matches Ok(decoded) ==> decoded.op.instr.accepts(decoded.op.arg) && 2
            <= decoded.num_cycles <= 9,
{
    proof {
        reveal(CpuModel::decode);
        reveal(CpuModel::resolve);
        lemma_decode_accepted(cpu@);
    }
    let opcode: u8 = cpu.pc_getb()?;
    let entry: (AddrMode, Instr, usize) = lookup(opcode);
    let mode: AddrMode = entry.0;
    let instr: Instr = entry.1;
    let mut num_cycles: usize = entry.2;
    let arg: InstrArg = match mode {
        AddrMode::Implied => InstrArg::Implied,
        AddrMode::Immediate => {
            let b: u8 = cpu.pc_getb()?;
            InstrArg::Immediate(b)
        },
        AddrMode::Relative => {
            let b: u8 = cpu.pc_getb()?;
            InstrArg::Address(cpu.relative(b))
        },
        AddrMode::Absolute => {
            let addr: u16 = cpu.pc_getdb()?;
            InstrArg::Address(addr)
        },
        AddrMode::AbsoluteX => {
            let addr: u16 = cpu.pc_getdb()?;
            // a page crossing costs one more cycle
            if num_cycles == 4 && (addr % 0x100) + cpu.x as u16 > 0xFF {
                num_cycles = num_cycles + 1;
            }
            InstrArg::Address(cpu.absolute_x(addr))
        },
        AddrMode::AbsoluteY => {
            let addr: u16 = cpu.pc_getdb()?;
            if num_cycles == 4 && (addr % 0x100) + cpu.y as u16 > 0xFF {
                num_cycles = num_cycles + 1;
            }
            InstrArg::Address(cpu.absolute_y(addr))
        },
        AddrMode::ZeroPage => {
            let b: u8 = cpu.pc_getb()?;
            InstrArg::Address(cpu.zero_page(b))
        },
        AddrMode::ZeroPageX => {
            let b: u8 = cpu.pc_getb()?;
            InstrArg::Address(cpu.zero_page_x(b))
        },
        AddrMode::ZeroPageY => {
            let b: u8 = cpu.pc_getb()?;
            InstrArg::Address(cpu.zero_page_y(b))
        },
        AddrMode::Indirect => {
            let addr: u16 = cpu.pc_getdb()?;
            InstrArg::Address(cpu.indirect(addr)?)
        },
        AddrMode::IndirectX => {
            let b: u8 = cpu.pc_getb()?;
            InstrArg::Address(cpu.indirect_x(b)?)
        },
        AddrMode::IndirectY => {
            let b: u8 = cpu.pc_getb()?;
            let base: u16 = cpu.indirect(b as u16)?;
            if num_cycles == 5 && (base % 0x100) + cpu.y as u16 > 0xFF {
                num_cycles = num_cycles + 1;
            }
            InstrArg::Address(cpu.absolute_y(base))
        },
    };
    Ok(DecodeResult { num_cycles, op: Op { instr, arg } })
}

impl CPU {
    /// Resolves a relative operand.
    pub fn relative(&self, val: u8) -> (addr: u16)
        ensures
            addr == self@.relative(val),
    {
        // the offset is a signed byte
        let offset: u16 = if val >= 0x80 {
            0xFF00 + val as u16
        } else {
            val as u16
        };
        offset.wrapping_add(self.pc)
    }

    /// Resolves an absolute,X operand.
    pub fn absolute_x(&self, val: u16) -> (addr: u16)
        ensures
            addr == self@.absolute_x(val),
    {
        val.wrapping_add(self.x as u16)
    }

    /// Resolves an absolute,Y operand.
    pub fn absolute_y(&self, val: u16) -> (addr: u16)
        ensures
            addr == self@.absolute_y(val),
    {
        val.wrapping_add(self.y as u16)
    }

    /// Resolves a zero page operand.
    pub fn zero_page(&self, val: u8) -> (addr: u16)
        ensures
            addr == self@.zero_page(val),
    {
        val as u16
    }

    /// Resolves a zero page,X operand.
    pub fn zero_page_x(&self, val: u8) -> (addr: u16)
        ensures
            addr == self@.zero_page_x(val),
    {
        val.wrapping_add(self.x) as u16
    }

    /// Resolves a zero page,Y operand.
    pub fn zero_page_y(&self, val: u8) -> (addr: u16)
        ensures
            addr == self@.zero_page_y(val),
    {
        val.wrapping_add(self.y) as u16
    }

    /// Resolves an indirect,X operand.
    pub fn indirect_x(&mut self, val: u8) -> (r: Result<u16, Fault>)
        ensures
            (final(self)@, r) == old(self)@.indirect_x(val),
    {
        let a: u16 = self.zero_page_x(val);
        self.indirect(a)
    }

    /// Resolves an indirect,Y operand.
    pub fn indirect_y(&mut self, val: u8) -> (r: Result<u16, Fault>)
        ensures
            (final(self)@, r) == old(self)@.indirect_y(val),
    {
        let val: u16 = self.indirect(val as u16)?;
        Ok(self.absolute_y(val))
    }

    /// Reads the pointer stored at `val`, without leaving its page.
    pub fn indirect(&mut self, val: u16) -> (r: Result<u16, Fault>)
        ensures
            (final(self)@, r) == old(self)@.indirect(val),
    {
        let addr_low: u16 = val % 0x100;
        let addr_high: u16 = val - addr_low;
        // the low byte is incremented on its own: the pointer does not
        // leave its page
        let j: u16 = addr_high + (addr_low + 1) % 0x100;
        let low: u8 = self.mem.loadb(val)?;
        let high: u8 = self.mem.loadb(j)?;
        Ok(concat_bytes(high, low))
    }
}

} // verus!
