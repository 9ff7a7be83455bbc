//! The instruction set: which opcode names which instruction.

use crate::ops::{spec_kind, OpKind, Operation};
use vstd::prelude::*;

verus! {

/// How an instruction finds its operand.
#[derive(Clone, Copy, Debug, PartialEq, Eq, Structural)]
pub enum Mode {
    Immediate,
    Accumulator,
    Implied,
    ZeroPage,
    ZeroPageX,
    ZeroPageY,
    Absolute,
    AbsoluteX,
    AbsoluteY,
    IndexedIndirect,
    IndirectIndexed,
}

/// The flag tests of the conditional branches.
#[derive(Clone, Copy, Debug, PartialEq, Eq, Structural)]
pub enum Cond {
    Pl,
    Mi,
    Vc,
    Vs,
    Cc,
    Cs,
    Ne,
    Eq,
}

/// A decoded instruction.
#[derive(Clone, Copy, Debug, PartialEq, Eq, Structural)]
pub enum Instr {
    /// An operation applied through an addressing mode.
    Alu(Mode, Operation),
    Brk,
    Rti,
    Rts,
    Jsr,
    Pha,
    Php,
    Pla,
    Plp,
    JmpAbs,
    JmpInd,
    Branch(Cond),
}

/// The instruction an opcode names; `None` for the opcodes not implemented.
#[verifier::opaque]
pub open spec fn spec_decode(opcode: u8) -> Option<Instr> {
    match opcode {
        0x00 => Some(Instr::Brk),
        0x01 => Some(Instr::Alu(Mode::IndexedIndirect, Operation::Ora)),
        0x04 => Some(Instr::Alu(Mode::ZeroPage, Operation::Nop)),
        0x05 => Some(Instr::Alu(Mode::ZeroPage, Operation::Ora)),
        0x06 => Some(Instr::Alu(Mode::ZeroPage, Operation::Asl)),
        0x08 => Some(Instr::Php),
        0x09 => Some(Instr::Alu(Mode::Immediate, Operation::Ora)),
        0x0A => Some(Instr::Alu(Mode::Accumulator, Operation::Asl)),
        0x0C => Some(Instr::Alu(Mode::Absolute, Operation::Nop)),
        0x0D => Some(Instr::Alu(Mode::Absolute, Operation::Ora)),
        0x0E => Some(Instr::Alu(Mode::Absolute, Operation::Asl)),
        0x10 => Some(Instr::Branch(Cond::Pl)),
        0x11 => Some(Instr::Alu(Mode::IndirectIndexed, Operation::Ora)),
        0x14 => Some(Instr::Alu(Mode::ZeroPageX, Operation::Nop)),
        0x15 => Some(Instr::Alu(Mode::ZeroPageX, Operation::Ora)),
        0x16 => Some(Instr::Alu(Mode::ZeroPageX, Operation::Asl)),
        0x18 => Some(Instr::Alu(Mode::Implied, Operation::Clc)),
        0x19 => Some(Instr::Alu(Mode::AbsoluteY, Operation::Ora)),
        0x1A => Some(Instr::Alu(Mode::Implied, Operation::Nop)),
        0x1C => Some(Instr::Alu(Mode::AbsoluteX, Operation::Nop)),
        0x1D => Some(Instr::Alu(Mode::AbsoluteX, Operation::Ora)),
        0x1E => Some(Instr::Alu(Mode::AbsoluteX, Operation::Asl)),
        0x20 => Some(Instr::Jsr),
        0x21 => Some(Instr::Alu(Mode::IndexedIndirect, Operation::And)),
        0x24 => Some(Instr::Alu(Mode::ZeroPage, Operation::Bit)),
        0x25 => Some(Instr::Alu(Mode::ZeroPage, Operation::And)),
        0x26 => Some(Instr::Alu(Mode::ZeroPage, Operation::Rol)),
        0x28 => Some(Instr::Plp),
        0x29 => Some(Instr::Alu(Mode::Immediate, Operation::And)),
        0x2A => Some(Instr::Alu(Mode::Accumulator, Operation::Rol)),
        0x2C => Some(Instr::Alu(Mode::Absolute, Operation::Bit)),
        0x2D => Some(Instr::Alu(Mode::Absolute, Operation::And)),
        0x2E => Some(Instr::Alu(Mode::Absolute, Operation::Rol)),
        0x30 => Some(Instr::Branch(Cond::Mi)),
        0x31 => Some(Instr::Alu(Mode::IndirectIndexed, Operation::And)),
        0x34 => Some(Instr::Alu(Mode::ZeroPageX, Operation::Nop)),
        0x35 => Some(Instr::Alu(Mode::ZeroPageX, Operation::And)),
        0x36 => Some(Instr::Alu(Mode::ZeroPageX, Operation::Rol)),
        0x38 => Some(Instr::Alu(Mode::Implied, Operation::Sec)),
        0x39 => Some(Instr::Alu(Mode::AbsoluteY, Operation::And)),
        0x3A => Some(Instr::Alu(Mode::Implied, Operation::Nop)),
        0x3C => Some(Instr::Alu(Mode::AbsoluteX, Operation::Nop)),
        0x3D => Some(Instr::Alu(Mode::AbsoluteX, Operation::And)),
        0x3E => Some(Instr::Alu(Mode::AbsoluteX, Operation::Rol)),
        0x40 => Some(Instr::Rti),
        0x41 => Some(Instr::Alu(Mode::IndexedIndirect, Operation::Eor)),
        0x44 => Some(Instr::Alu(Mode::ZeroPage, Operation::Nop)),
        0x45 => Some(Instr::Alu(Mode::ZeroPage, Operation::Eor)),
        0x46 => Some(Instr::Alu(Mode::ZeroPage, Operation::Lsr)),
        0x48 => Some(Instr::Pha),
        0x49 => Some(Instr::Alu(Mode::Immediate, Operation::Eor)),
        0x4A => Some(Instr::Alu(Mode::Accumulator, Operation::Lsr)),
        0x4C => Some(Instr::JmpAbs),
        0x4D => Some(Instr::Alu(Mode::Absolute, Operation::Eor)),
        0x4E => Some(Instr::Alu(Mode::Absolute, Operation::Lsr)),
        0x50 => Some(Instr::Branch(Cond::Vc)),
        0x51 => Some(Instr::Alu(Mode::IndirectIndexed, Operation::Eor)),
        0x54 => Some(Instr::Alu(Mode::ZeroPageX, Operation::Nop)),
        0x55 => Some(Instr::Alu(Mode::ZeroPageX, Operation::Eor)),
        0x56 => Some(Instr::Alu(Mode::ZeroPageX, Operation::Lsr)),
        0x58 => Some(Instr::Alu(Mode::Implied, Operation::Cli)),
        0x59 => Some(Instr::Alu(Mode::AbsoluteY, Operation::Eor)),
        0x5A => Some(Instr::Alu(Mode::Implied, Operation::Nop)),
        0x5C => Some(Instr::Alu(Mode::AbsoluteX, Operation::Nop)),
        0x5D => Some(Instr::Alu(Mode::AbsoluteX, Operation::Eor)),
        0x5E => Some(Instr::Alu(Mode::AbsoluteX, Operation::Lsr)),
        0x60 => Some(Instr::Rts),
        0x61 => Some(Instr::Alu(Mode::IndexedIndirect, Operation::Adc)),
        0x64 => Some(Instr::Alu(Mode::ZeroPage, Operation::Nop)),
        0x65 => Some(Instr::Alu(Mode::ZeroPage, Operation::Adc)),
        0x66 => Some(Instr::Alu(Mode::ZeroPage, Operation::Ror)),
        0x68 => Some(Instr::Pla),
        0x69 => Some(Instr::Alu(Mode::Immediate, Operation::Adc)),
        0x6A => Some(Instr::Alu(Mode::Accumulator, Operation::Ror)),
        0x6C => Some(Instr::JmpInd),
        0x6D => Some(Instr::Alu(Mode::Absolute, Operation::Adc)),
        0x6E => Some(Instr::Alu(Mode::Absolute, Operation::Ror)),
        0x70 => Some(Instr::Branch(Cond::Vs)),
        0x71 => Some(Instr::Alu(Mode::IndirectIndexed, Operation::Adc)),
        0x74 => Some(Instr::Alu(Mode::ZeroPageX, Operation::Nop)),
        0x75 => Some(Instr::Alu(Mode::ZeroPageX, Operation::Adc)),
        0x76 => Some(Instr::Alu(Mode::ZeroPageX, Operation::Ror)),
        0x78 => Some(Instr::Alu(Mode::Implied, Operation::Sei)),
        0x79 => Some(Instr::Alu(Mode::AbsoluteY, Operation::Adc)),
        0x7A => Some(Instr::Alu(Mode::Implied, Operation::Nop)),
        0x7C => Some(Instr::Alu(Mode::AbsoluteX, Operation::Nop)),
        0x7D => Some(Instr::Alu(Mode::AbsoluteX, Operation::Adc)),
        0x7E => Some(Instr::Alu(Mode::AbsoluteX, Operation::Ror)),
        0x80 => Some(Instr::Alu(Mode::Immediate, Operation::Nop)),
        0x81 => Some(Instr::Alu(Mode::IndexedIndirect, Operation::Sta)),
        0x82 => Some(Instr::Alu(Mode::Immediate, Operation::Nop)),
        0x84 => Some(Instr::Alu(Mode::ZeroPage, Operation::Sty)),
        0x85 => Some(Instr::Alu(Mode::ZeroPage, Operation::Sta)),
        0x86 => Some(Instr::Alu(Mode::ZeroPage, Operation::Stx)),
        0x88 => Some(Instr::Alu(Mode::Implied, Operation::Dey)),
        0x89 => Some(Instr::Alu(Mode::Immediate, Operation::Nop)),
        0x8A => Some(Instr::Alu(Mode::Implied, Operation::Txa)),
        0x8C => Some(Instr::Alu(Mode::Absolute, Operation::Sty)),
        0x8D => Some(Instr::Alu(Mode::Absolute, Operation::Sta)),
        0x8E => Some(Instr::Alu(Mode::Absolute, Operation::Stx)),
        0x90 => Some(Instr::Branch(Cond::Cc)),
        0x91 => Some(Instr::Alu(Mode::IndirectIndexed, Operation::Sta)),
        0x94 => Some(Instr::Alu(Mode::ZeroPageX, Operation::Sty)),
        0x95 => Some(Instr::Alu(Mode::ZeroPageX, Operation::Sta)),
        0x96 => Some(Instr::Alu(Mode::ZeroPageY, Operation::Stx)),
        0x98 => Some(Instr::Alu(Mode::Implied, Operation::Tya)),
        0x99 => Some(Instr::Alu(Mode::AbsoluteY, Operation::Sta)),
        0x9A => Some(Instr::Alu(Mode::Implied, Operation::Txs)),
        0x9D => Some(Instr::Alu(Mode::AbsoluteX, Operation::Sta)),
        0xA0 => Some(Instr::Alu(Mode::Immediate, Operation::Ldy)),
        0xA1 => Some(Instr::Alu(Mode::IndexedIndirect, Operation::Lda)),
        0xA2 => Some(Instr::Alu(Mode::Immediate, Operation::Ldx)),
        0xA4 => Some(Instr::Alu(Mode::ZeroPage, Operation::Ldy)),
        0xA5 => Some(Instr::Alu(Mode::ZeroPage, Operation::Lda)),
        0xA6 => Some(Instr::Alu(Mode::ZeroPage, Operation::Ldx)),
        0xA8 => Some(Instr::Alu(Mode::Implied, Operation::Tay)),
        0xA9 => Some(Instr::Alu(Mode::Immediate, Operation::Lda)),
        0xAA => Some(Instr::Alu(Mode::Implied, Operation::Tax)),
        0xAC => Some(Instr::Alu(Mode::Absolute, Operation::Ldy)),
        0xAD => Some(Instr::Alu(Mode::Absolute, Operation::Lda)),
        0xAE => Some(Instr::Alu(Mode::Absolute, Operation::Ldx)),
        0xB0 => Some(Instr::Branch(Cond::Cs)),
        0xB1 => Some(Instr::Alu(Mode::IndirectIndexed, Operation::Lda)),
        0xB4 => Some(Instr::Alu(Mode::ZeroPageX, Operation::Ldy)),
        0xB5 => Some(Instr::Alu(Mode::ZeroPageX, Operation::Lda)),
        0xB6 => Some(Instr::Alu(Mode::ZeroPageY, Operation::Ldx)),
        0xB8 => Some(Instr::Alu(Mode::Implied, Operation::Clv)),
        0xB9 => Some(Instr::Alu(Mode::AbsoluteY, Operation::Lda)),
        0xBA => Some(Instr::Alu(Mode::Implied, Operation::Tsx)),
        0xBC => Some(Instr::Alu(Mode::AbsoluteX, Operation::Ldy)),
        0xBD => Some(Instr::Alu(Mode::AbsoluteX, Operation::Lda)),
        0xBE => Some(Instr::Alu(Mode::AbsoluteY, Operation::Ldx)),
        0xC0 => Some(Instr::Alu(Mode::Immediate, Operation::Cpy)),
        0xC1 => Some(Instr::Alu(Mode::IndexedIndirect, Operation::Cmp)),
        0xC2 => Some(Instr::Alu(Mode::Immediate, Operation::Nop)),
        0xC4 => Some(Instr::Alu(Mode::ZeroPage, Operation::Cpy)),
        0xC5 => Some(Instr::Alu(Mode::ZeroPage, Operation::Cmp)),
        0xC6 => Some(Instr::Alu(Mode::ZeroPage, Operation::Dec)),
        0xC8 => Some(Instr::Alu(Mode::Implied, Operation::Iny)),
        0xC9 => Some(Instr::Alu(Mode::Immediate, Operation::Cmp)),
        0xCA => Some(Instr::Alu(Mode::Implied, Operation::Dex)),
        0xCC => Some(Instr::Alu(Mode::Absolute, Operation::Cpy)),
        0xCD => Some(Instr::Alu(Mode::Absolute, Operation::Cmp)),
        0xCE => Some(Instr::Alu(Mode::Absolute, Operation::Dec)),
        0xD0 => Some(Instr::Branch(Cond::Ne)),
        0xD1 => Some(Instr::Alu(Mode::IndirectIndexed, Operation::Cmp)),
        0xD4 => Some(Instr::Alu(Mode::ZeroPageX, Operation::Nop)),
        0xD5 => Some(Instr::Alu(Mode::ZeroPageX, Operation::Cmp)),
        0xD6 => Some(Instr::Alu(Mode::ZeroPageX, Operation::Dec)),
        0xD8 => Some(Instr::Alu(Mode::Implied, Operation::Cld)),
        0xD9 => Some(Instr::Alu(Mode::AbsoluteY, Operation::Cmp)),
        0xDA => Some(Instr::Alu(Mode::Implied, Operation::Nop)),
        0xDC => Some(Instr::Alu(Mode::AbsoluteX, Operation::Nop)),
        0xDD => Some(Instr::Alu(Mode::AbsoluteX, Operation::Cmp)),
        0xDE => Some(Instr::Alu(Mode::AbsoluteX, Operation::Dec)),
        0xE0 => Some(Instr::Alu(Mode::Immediate, Operation::Cpx)),
        0xE1 => Some(Instr::Alu(Mode::IndexedIndirect, Operation::Sbc)),
        0xE2 => Some(Instr::Alu(Mode::Immediate, Operation::Nop)),
        0xE4 => Some(Instr::Alu(Mode::ZeroPage, Operation::Cpx)),
        0xE5 => Some(Instr::Alu(Mode::ZeroPage, Operation::Sbc)),
        0xE6 => Some(Instr::Alu(Mode::ZeroPage, Operation::Inc)),
        0xE8 => Some(Instr::Alu(Mode::Implied, Operation::Inx)),
        0xE9 => Some(Instr::Alu(Mode::Immediate, Operation::Sbc)),
        0xEA => Some(Instr::Alu(Mode::Implied, Operation::Nop)),
        0xEC => Some(Instr::Alu(Mode::Absolute, Operation::Cpx)),
        0xED => Some(Instr::Alu(Mode::Absolute, Operation::Sbc)),
        0xEE => Some(Instr::Alu(Mode::Absolute, Operation::Inc)),
        0xF0 => Some(Instr::Branch(Cond::Eq)),
        0xF1 => Some(Instr::Alu(Mode::IndirectIndexed, Operation::Sbc)),
        0xF4 => Some(Instr::Alu(Mode::ZeroPageX, Operation::Nop)),
        0xF5 => Some(Instr::Alu(Mode::ZeroPageX, Operation::Sbc)),
        0xF6 => Some(Instr::Alu(Mode::ZeroPageX, Operation::Inc)),
        0xF8 => Some(Instr::Alu(Mode::Implied, Operation::Sed)),
        0xF9 => Some(Instr::Alu(Mode::AbsoluteY, Operation::Sbc)),
        0xFA => Some(Instr::Alu(Mode::Implied, Operation::Nop)),
        0xFC => Some(Instr::Alu(Mode::AbsoluteX, Operation::Nop)),
        0xFD => Some(Instr::Alu(Mode::AbsoluteX, Operation::Sbc)),
        0xFE => Some(Instr::Alu(Mode::AbsoluteX, Operation::Inc)),
        _ => None,
    }
}

/// Decodes an opcode.
pub fn decode(opcode: u8) -> (r: Option<Instr>)
    ensures
        r == spec_decode(opcode),
{
    reveal(spec_decode);
    match opcode {
        0x00 => Some(Instr::Brk),
        0x01 => Some(Instr::Alu(Mode::IndexedIndirect, Operation::Ora)),
        0x04 => Some(Instr::Alu(Mode::ZeroPage, Operation::Nop)),
        0x05 => Some(Instr::Alu(Mode::ZeroPage, Operation::Ora)),
        0x06 => Some(Instr::Alu(Mode::ZeroPage, Operation::Asl)),
        0x08 => Some(Instr::Php),
        0x09 => Some(Instr::Alu(Mode::Immediate, Operation::Ora)),
        0x0A => Some(Instr::Alu(Mode::Accumulator, Operation::Asl)),
        0x0C => Some(Instr::Alu(Mode::Absolute, Operation::Nop)),
        0x0D => Some(Instr::Alu(Mode::Absolute, Operation::Ora)),
        0x0E => Some(Instr::Alu(Mode::Absolute, Operation::Asl)),
        0x10 => Some(Instr::Branch(Cond::Pl)),
        0x11 => Some(Instr::Alu(Mode::IndirectIndexed, Operation::Ora)),
        0x14 => Some(Instr::Alu(Mode::ZeroPageX, Operation::Nop)),
        0x15 => Some(Instr::Alu(Mode::ZeroPageX, Operation::Ora)),
        0x16 => Some(Instr::Alu(Mode::ZeroPageX, Operation::Asl)),
        0x18 => Some(Instr::Alu(Mode::Implied, Operation::Clc)),
        0x19 => Some(Instr::Alu(Mode::AbsoluteY, Operation::Ora)),
        0x1A => Some(Instr::Alu(Mode::Implied, Operation::Nop)),
        0x1C => Some(Instr::Alu(Mode::AbsoluteX, Operation::Nop)),
        0x1D => Some(Instr::Alu(Mode::AbsoluteX, Operation::Ora)),
        0x1E => Some(Instr::Alu(Mode::AbsoluteX, Operation::Asl)),
        0x20 => Some(Instr::Jsr),
        0x21 => Some(Instr::Alu(Mode::IndexedIndirect, Operation::And)),
        0x24 => Some(Instr::Alu(Mode::ZeroPage, Operation::Bit)),
        0x25 => Some(Instr::Alu(Mode::ZeroPage, Operation::And)),
        0x26 => Some(Instr::Alu(Mode::ZeroPage, Operation::Rol)),
        0x28 => Some(Instr::Plp),
        0x29 => Some(Instr::Alu(Mode::Immediate, Operation::And)),
        0x2A => Some(Instr::Alu(Mode::Accumulator, Operation::Rol)),
        0x2C => Some(Instr::Alu(Mode::Absolute, Operation::Bit)),
        0x2D => Some(Instr::Alu(Mode::Absolute, Operation::And)),
        0x2E => Some(Instr::Alu(Mode::Absolute, Operation::Rol)),
        0x30 => Some(Instr::Branch(Cond::Mi)),
        0x31 => Some(Instr::Alu(Mode::IndirectIndexed, Operation::And)),
        0x34 => Some(Instr::Alu(Mode::ZeroPageX, Operation::Nop)),
        0x35 => Some(Instr::Alu(Mode::ZeroPageX, Operation::And)),
        0x36 => Some(Instr::Alu(Mode::ZeroPageX, Operation::Rol)),
        0x38 => Some(Instr::Alu(Mode::Implied, Operation::Sec)),
        0x39 => Some(Instr::Alu(Mode::AbsoluteY, Operation::And)),
        0x3A => Some(Instr::Alu(Mode::Implied, Operation::Nop)),
        0x3C => Some(Instr::Alu(Mode::AbsoluteX, Operation::Nop)),
        0x3D => Some(Instr::Alu(Mode::AbsoluteX, Operation::And)),
        0x3E => Some(Instr::Alu(Mode::AbsoluteX, Operation::Rol)),
        0x40 => Some(Instr::Rti),
        0x41 => Some(Instr::Alu(Mode::IndexedIndirect, Operation::Eor)),
        0x44 => Some(Instr::Alu(Mode::ZeroPage, Operation::Nop)),
        0x45 => Some(Instr::Alu(Mode::ZeroPage, Operation::Eor)),
        0x46 => Some(Instr::Alu(Mode::ZeroPage, Operation::Lsr)),
        0x48 => Some(Instr::Pha),
        0x49 => Some(Instr::Alu(Mode::Immediate, Operation::Eor)),
        0x4A => Some(Instr::Alu(Mode::Accumulator, Operation::Lsr)),
        0x4C => Some(Instr::JmpAbs),
        0x4D => Some(Instr::Alu(Mode::Absolute, Operation::Eor)),
        0x4E => Some(Instr::Alu(Mode::Absolute, Operation::Lsr)),
        0x50 => Some(Instr::Branch(Cond::Vc)),
        0x51 => Some(Instr::Alu(Mode::IndirectIndexed, Operation::Eor)),
        0x54 => Some(Instr::Alu(Mode::ZeroPageX, Operation::Nop)),
        0x55 => Some(Instr::Alu(Mode::ZeroPageX, Operation::Eor)),
        0x56 => Some(Instr::Alu(Mode::ZeroPageX, Operation::Lsr)),
        0x58 => Some(Instr::Alu(Mode::Implied, Operation::Cli)),
        0x59 => Some(Instr::Alu(Mode::AbsoluteY, Operation::Eor)),
        0x5A => Some(Instr::Alu(Mode::Implied, Operation::Nop)),
        0x5C => Some(Instr::Alu(Mode::AbsoluteX, Operation::Nop)),
        0x5D => Some(Instr::Alu(Mode::AbsoluteX, Operation::Eor)),
        0x5E => Some(Instr::Alu(Mode::AbsoluteX, Operation::Lsr)),
        0x60 => Some(Instr::Rts),
        0x61 => Some(Instr::Alu(Mode::IndexedIndirect, Operation::Adc)),
        0x64 => Some(Instr::Alu(Mode::ZeroPage, Operation::Nop)),
        0x65 => Some(Instr::Alu(Mode::ZeroPage, Operation::Adc)),
        0x66 => Some(Instr::Alu(Mode::ZeroPage, Operation::Ror)),
        0x68 => Some(Instr::Pla),
        0x69 => Some(Instr::Alu(Mode::Immediate, Operation::Adc)),
        0x6A => Some(Instr::Alu(Mode::Accumulator, Operation::Ror)),
        0x6C => Some(Instr::JmpInd),
        0x6D => Some(Instr::Alu(Mode::Absolute, Operation::Adc)),
        0x6E => Some(Instr::Alu(Mode::Absolute, Operation::Ror)),
        0x70 => Some(Instr::Branch(Cond::Vs)),
        0x71 => Some(Instr::Alu(Mode::IndirectIndexed, Operation::Adc)),
        0x74 => Some(Instr::Alu(Mode::ZeroPageX, Operation::Nop)),
        0x75 => Some(Instr::Alu(Mode::ZeroPageX, Operation::Adc)),
        0x76 => Some(Instr::Alu(Mode::ZeroPageX, Operation::Ror)),
        0x78 => Some(Instr::Alu(Mode::Implied, Operation::Sei)),
        0x79 => Some(Instr::Alu(Mode::AbsoluteY, Operation::Adc)),
        0x7A => Some(Instr::Alu(Mode::Implied, Operation::Nop)),
        0x7C => Some(Instr::Alu(Mode::AbsoluteX, Operation::Nop)),
        0x7D => Some(Instr::Alu(Mode::AbsoluteX, Operation::Adc)),
        0x7E => Some(Instr::Alu(Mode::AbsoluteX, Operation::Ror)),
        0x80 => Some(Instr::Alu(Mode::Immediate, Operation::Nop)),
        0x81 => Some(Instr::Alu(Mode::IndexedIndirect, Operation::Sta)),
        0x82 => Some(Instr::Alu(Mode::Immediate, Operation::Nop)),
        0x84 => Some(Instr::Alu(Mode::ZeroPage, Operation::Sty)),
        0x85 => Some(Instr::Alu(Mode::ZeroPage, Operation::Sta)),
        0x86 => Some(Instr::Alu(Mode::ZeroPage, Operation::Stx)),
        0x88 => Some(Instr::Alu(Mode::Implied, Operation::Dey)),
        0x89 => Some(Instr::Alu(Mode::Immediate, Operation::Nop)),
        0x8A => Some(Instr::Alu(Mode::Implied, Operation::Txa)),
        0x8C => Some(Instr::Alu(Mode::Absolute, Operation::Sty)),
        0x8D => Some(Instr::Alu(Mode::Absolute, Operation::Sta)),
        0x8E => Some(Instr::Alu(Mode::Absolute, Operation::Stx)),
        0x90 => Some(Instr::Branch(Cond::Cc)),
        0x91 => Some(Instr::Alu(Mode::IndirectIndexed, Operation::Sta)),
        0x94 => Some(Instr::Alu(Mode::ZeroPageX, Operation::Sty)),
        0x95 => Some(Instr::Alu(Mode::ZeroPageX, Operation::Sta)),
        0x96 => Some(Instr::Alu(Mode::ZeroPageY, Operation::Stx)),
        0x98 => Some(Instr::Alu(Mode::Implied, Operation::Tya)),
        0x99 => Some(Instr::Alu(Mode::AbsoluteY, Operation::Sta)),
        0x9A => Some(Instr::Alu(Mode::Implied, Operation::Txs)),
        0x9D => Some(Instr::Alu(Mode::AbsoluteX, Operation::Sta)),
        0xA0 => Some(Instr::Alu(Mode::Immediate, Operation::Ldy)),
        0xA1 => Some(Instr::Alu(Mode::IndexedIndirect, Operation::Lda)),
        0xA2 => Some(Instr::Alu(Mode::Immediate, Operation::Ldx)),
        0xA4 => Some(Instr::Alu(Mode::ZeroPage, Operation::Ldy)),
        0xA5 => Some(Instr::Alu(Mode::ZeroPage, Operation::Lda)),
        0xA6 => Some(Instr::Alu(Mode::ZeroPage, Operation::Ldx)),
        0xA8 => Some(Instr::Alu(Mode::Implied, Operation::Tay)),
        0xA9 => Some(Instr::Alu(Mode::Immediate, Operation::Lda)),
        0xAA => Some(Instr::Alu(Mode::Implied, Operation::Tax)),
        0xAC => Some(Instr::Alu(Mode::Absolute, Operation::Ldy)),
        0xAD => Some(Instr::Alu(Mode::Absolute, Operation::Lda)),
        0xAE => Some(Instr::Alu(Mode::Absolute, Operation::Ldx)),
        0xB0 => Some(Instr::Branch(Cond::Cs)),
        0xB1 => Some(Instr::Alu(Mode::IndirectIndexed, Operation::Lda)),
        0xB4 => Some(Instr::Alu(Mode::ZeroPageX, Operation::Ldy)),
        0xB5 => Some(Instr::Alu(Mode::ZeroPageX, Operation::Lda)),
        0xB6 => Some(Instr::Alu(Mode::ZeroPageY, Operation::Ldx)),
        0xB8 => Some(Instr::Alu(Mode::Implied, Operation::Clv)),
        0xB9 => Some(Instr::Alu(Mode::AbsoluteY, Operation::Lda)),
        0xBA => Some(Instr::Alu(Mode::Implied, Operation::Tsx)),
        0xBC => Some(Instr::Alu(Mode::AbsoluteX, Operation::Ldy)),
        0xBD => Some(Instr::Alu(Mode::AbsoluteX, Operation::Lda)),
        0xBE => Some(Instr::Alu(Mode::AbsoluteY, Operation::Ldx)),
        0xC0 => Some(Instr::Alu(Mode::Immediate, Operation::Cpy)),
        0xC1 => Some(Instr::Alu(Mode::IndexedIndirect, Operation::Cmp)),
        0xC2 => Some(Instr::Alu(Mode::Immediate, Operation::Nop)),
        0xC4 => Some(Instr::Alu(Mode::ZeroPage, Operation::Cpy)),
        0xC5 => Some(Instr::Alu(Mode::ZeroPage, Operation::Cmp)),
        0xC6 => Some(Instr::Alu(Mode::ZeroPage, Operation::Dec)),
        0xC8 => Some(Instr::Alu(Mode::Implied, Operation::Iny)),
        0xC9 => Some(Instr::Alu(Mode::Immediate, Operation::Cmp)),
        0xCA => Some(Instr::Alu(Mode::Implied, Operation::Dex)),
        0xCC => Some(Instr::Alu(Mode::Absolute, Operation::Cpy)),
        0xCD => Some(Instr::Alu(Mode::Absolute, Operation::Cmp)),
        0xCE => Some(Instr::Alu(Mode::Absolute, Operation::Dec)),
        0xD0 => Some(Instr::Branch(Cond::Ne)),
        0xD1 => Some(Instr::Alu(Mode::IndirectIndexed, Operation::Cmp)),
        0xD4 => Some(Instr::Alu(Mode::ZeroPageX, Operation::Nop)),
        0xD5 => Some(Instr::Alu(Mode::ZeroPageX, Operation::Cmp)),
        0xD6 => Some(Instr::Alu(Mode::ZeroPageX, Operation::Dec)),
        0xD8 => Some(Instr::Alu(Mode::Implied, Operation::Cld)),
        0xD9 => Some(Instr::Alu(Mode::AbsoluteY, Operation::Cmp)),
        0xDA => Some(Instr::Alu(Mode::Implied, Operation::Nop)),
        0xDC => Some(Instr::Alu(Mode::AbsoluteX, Operation::Nop)),
        0xDD => Some(Instr::Alu(Mode::AbsoluteX, Operation::Cmp)),
        0xDE => Some(Instr::Alu(Mode::AbsoluteX, Operation::Dec)),
        0xE0 => Some(Instr::Alu(Mode::Immediate, Operation::Cpx)),
        0xE1 => Some(Instr::Alu(Mode::IndexedIndirect, Operation::Sbc)),
        0xE2 => Some(Instr::Alu(Mode::Immediate, Operation::Nop)),
        0xE4 => Some(Instr::Alu(Mode::ZeroPage, Operation::Cpx)),
        0xE5 => Some(Instr::Alu(Mode::ZeroPage, Operation::Sbc)),
        0xE6 => Some(Instr::Alu(Mode::ZeroPage, Operation::Inc)),
        0xE8 => Some(Instr::Alu(Mode::Implied, Operation::Inx)),
        0xE9 => Some(Instr::Alu(Mode::Immediate, Operation::Sbc)),
        0xEA => Some(Instr::Alu(Mode::Implied, Operation::Nop)),
        0xEC => Some(Instr::Alu(Mode::Absolute, Operation::Cpx)),
        0xED => Some(Instr::Alu(Mode::Absolute, Operation::Sbc)),
        0xEE => Some(Instr::Alu(Mode::Absolute, Operation::Inc)),
        0xF0 => Some(Instr::Branch(Cond::Eq)),
        0xF1 => Some(Instr::Alu(Mode::IndirectIndexed, Operation::Sbc)),
        0xF4 => Some(Instr::Alu(Mode::ZeroPageX, Operation::Nop)),
        0xF5 => Some(Instr::Alu(Mode::ZeroPageX, Operation::Sbc)),
        0xF6 => Some(Instr::Alu(Mode::ZeroPageX, Operation::Inc)),
        0xF8 => Some(Instr::Alu(Mode::Implied, Operation::Sed)),
        0xF9 => Some(Instr::Alu(Mode::AbsoluteY, Operation::Sbc)),
        0xFA => Some(Instr::Alu(Mode::Implied, Operation::Nop)),
        0xFC => Some(Instr::Alu(Mode::AbsoluteX, Operation::Nop)),
        0xFD => Some(Instr::Alu(Mode::AbsoluteX, Operation::Sbc)),
        0xFE => Some(Instr::Alu(Mode::AbsoluteX, Operation::Inc)),
        _ => None,
    }
}

/// Whether an operation fits an addressing mode as the instruction table
/// pairs them: immediate operands are read, the accumulator is modified in
/// place, implied instructions take no operand, and the indirect modes have
/// no read-modify-write instructions.
pub open spec fn fits(mode: Mode, op: Operation) -> bool {
    match mode {
        Mode::Immediate => spec_kind(op) == OpKind::Read || spec_kind(op) == OpKind::Implied,
        Mode::Accumulator => spec_kind(op) == OpKind::ReadWrite,
        Mode::Implied => spec_kind(op) == OpKind::Implied,
        Mode::IndexedIndirect | Mode::IndirectIndexed => spec_kind(op) != OpKind::ReadWrite,
        _ => true,
    }
}

/// Every operation in the instruction table fits its addressing mode.
pub proof fn lemma_decode_fits(opcode: u8)
    ensures
        match spec_decode(opcode) {
            Some(Instr::Alu(mode, op)) => fits(mode, op),
            _ => true,
        },
{
    reveal(spec_decode);
}

} // verus!
