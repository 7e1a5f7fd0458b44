//! The CPU: register file, instruction catalogue and the cycle-stepped
//! engine that drives one in-flight instruction per clock.
use vstd::prelude::*;
use crate::bus::{read_spec, value_outcome, write_spec, unit_outcome, Bus, BusView};
use crate::fault::{BusAccessable, Fault};
use crate::status::StatusReg;

verus! {

#[derive(Clone, Copy, Debug, PartialEq, Eq, Structural)]
pub enum AddrMode {
    Accumulator,
    Absolute,
    AbsoluteX,
    AbsoluteY,
    Immediate,
    Implied,
    Indirect,
    IndirectX,
    IndirectY,
    Relative,
    Zero,
    ZeroX,
    ZeroY,
    /// The instruction takes one fixed form of its own.
    Auto,
}

/// The semantic class of an opcode, by its mnemonic.
#[derive(Clone, Copy, Debug, PartialEq, Eq, Structural)]
pub enum Operation {
    Adc,
    Anc,
    And,
    Ane,
    Arr,
    Asl,
    Asr,
    Bcc,
    Bcs,
    Beq,
    Bit,
    Bmi,
    Bne,
    Bpl,
    Brk,
    Bvc,
    Bvs,
    Clc,
    Cld,
    Cli,
    Clv,
    Cmp,
    Cpx,
    Cpy,
    Dcp,
    Dec,
    Dex,
    Dey,
    Eor,
    Inc,
    Inx,
    Iny,
    Isb,
    Jmp,
    Jsr,
    Las,
    Lax,
    Lda,
    Ldx,
    Ldy,
    Lsr,
    Lxa,
    Nop,
    Ora,
    Pha,
    Php,
    Pla,
    Plp,
    Rla,
    Rol,
    Ror,
    Rra,
    Rti,
    Rts,
    Sax,
    Sbc,
    Sbx,
    Sec,
    Sed,
    Sei,
    Sha,
    Shs,
    Shx,
    Shy,
    Slo,
    Sre,
    Sta,
    Stx,
    Sty,
    Tax,
    Tay,
    Tsx,
    Txa,
    Txs,
    Tya
}

/// Loads and other instructions that read one operand.
pub open spec fn is_read_op(op: Operation) -> bool {
    op == Operation::Lda || op == Operation::Ldx || op == Operation::Ldy || op == Operation::Eor
        || op == Operation::Sbc || op == Operation::Adc || op == Operation::And || op == Operation::Ora
        || op == Operation::Cmp || op == Operation::Cpx || op == Operation::Cpy || op == Operation::Bit
        || op == Operation::Nop
}

/// The one-byte form of NOP, which reads no operand.
pub open spec fn is_plain_nop(op: Operation, mode: AddrMode) -> bool {
    op == Operation::Nop && mode == AddrMode::Implied
}

pub open spec fn is_store_op(op: Operation) -> bool {
    op == Operation::Sta || op == Operation::Stx || op == Operation::Sty
}

/// Shifts and rotates, on the accumulator or read-modify-write on memory,
/// and increments and decrements of memory.
pub open spec fn is_rmw_op(op: Operation) -> bool {
    op == Operation::Asl || op == Operation::Lsr || op == Operation::Rol || op == Operation::Ror
        || op == Operation::Inc || op == Operation::Dec
}

/// Pushes, pulls and the return from a subroutine.
pub open spec fn is_stack_op(op: Operation) -> bool {
    op == Operation::Pha || op == Operation::Php || op == Operation::Pla || op == Operation::Plp
        || op == Operation::Rts
}

/// Single-byte instructions on registers and flags.
pub open spec fn is_implied_op(op: Operation) -> bool {
    op == Operation::Dex || op == Operation::Dey || op == Operation::Inx || op == Operation::Iny
        || op == Operation::Tax || op == Operation::Tay || op == Operation::Tsx || op == Operation::Txa
        || op == Operation::Txs || op == Operation::Tya || op == Operation::Cld || op == Operation::Sec
        || op == Operation::Sed || op == Operation::Sei || op == Operation::Clc || op == Operation::Cli
        || op == Operation::Clv
}

pub open spec fn is_branch_op(op: Operation) -> bool {
    op == Operation::Bcc || op == Operation::Bcs || op == Operation::Beq || op == Operation::Bmi
        || op == Operation::Bne || op == Operation::Bpl || op == Operation::Bvc || op == Operation::Bvs
}

/// The cycles an instruction takes, its opcode fetch included. For a branch
/// this is the longest case (taken, to another page); for a form the model
/// rejects it is 1.
pub open spec fn template_cycles(op: Operation, mode: AddrMode) -> u8 {
    if is_plain_nop(op, mode) {
        2
    } else if is_read_op(op) || is_store_op(op) {
        match mode {
            AddrMode::Immediate => 2,
            AddrMode::Zero => 3,
            AddrMode::Absolute | AddrMode::ZeroX | AddrMode::ZeroY => 4,
            _ => 1,
        }
    } else if is_rmw_op(op) {
        match mode {
            AddrMode::Accumulator => 2,
            AddrMode::Zero => 5,
            AddrMode::Absolute | AddrMode::ZeroX => 6,
            AddrMode::AbsoluteX => 7,
            _ => 1,
        }
    } else if is_implied_op(op) {
        2
    } else if is_branch_op(op) {
        4
    } else if op == Operation::Jmp {
        match mode {
            AddrMode::Absolute => 3,
            AddrMode::Indirect => 5,
            _ => 1,
        }
    } else if op == Operation::Jsr || op == Operation::Rts {
        6
    } else if op == Operation::Pha || op == Operation::Php {
        3
    } else if op == Operation::Pla || op == Operation::Plp {
        4
    } else {
        1
    }
}

/// The state of the instruction in flight.
#[derive(Clone, Copy, Debug, PartialEq, Eq, Structural)]
pub struct InstructionProcedure {
    pub done: bool,
    pub op: Operation,
    pub mode: AddrMode,
    /// The cycle being executed; 1 is the cycle that fetched the opcode.
    pub cycle: u8,
    pub tmp0: u8,
    pub tmp1: u8,
    pub tmp_addr: u16,
}

/// An instruction in flight has not completed and stands within its
/// template.
pub open spec fn proc_wf(p: InstructionProcedure) -> bool {
    !p.done && 1 <= p.cycle <= template_cycles(p.op, p.mode)
}

pub open spec fn fresh_proc(op: Operation, mode: AddrMode) -> InstructionProcedure {
    InstructionProcedure { done: false, op, mode, cycle: 1, tmp0: 0, tmp1: 0, tmp_addr: 0 }
}

impl InstructionProcedure {
    pub fn new(op: Operation, addr_mode: AddrMode) -> (r: InstructionProcedure)
        ensures
            r == fresh_proc(op, addr_mode),
    {
        InstructionProcedure { done: false, op, mode: addr_mode, cycle: 1, tmp0: 0, tmp1: 0, tmp_addr: 0 }
    }
}

/// The instruction table: each opcode's semantic class and addressing mode.
pub open spec fn decode_spec(opcode: u8) -> Option<(Operation, AddrMode)> {
    match opcode {
        0x00u8 => Some((Operation::Brk, AddrMode::Auto)),
        0x01u8 => Some((Operation::Ora, AddrMode::IndirectX)),
        0x03u8 => Some((Operation::Slo, AddrMode::IndirectX)),
        0x04u8 => Some((Operation::Nop, AddrMode::Zero)),
        0x05u8 => Some((Operation::Ora, AddrMode::Zero)),
        0x06u8 => Some((Operation::Asl, AddrMode::Zero)),
        0x07u8 => Some((Operation::Slo, AddrMode::Zero)),
        0x08u8 => Some((Operation::Php, AddrMode::Implied)),
        0x09u8 => Some((Operation::Ora, AddrMode::Immediate)),
        0x0Au8 => Some((Operation::Asl, AddrMode::Accumulator)),
        0x0Bu8 => Some((Operation::Anc, AddrMode::Auto)),
        0x0Cu8 => Some((Operation::Nop, AddrMode::Absolute)),
        0x0Du8 => Some((Operation::Ora, AddrMode::Absolute)),
        0x0Eu8 => Some((Operation::Asl, AddrMode::Absolute)),
        0x0Fu8 => Some((Operation::Slo, AddrMode::Absolute)),
        0x10u8 => Some((Operation::Bpl, AddrMode::Relative)),
        0x11u8 => Some((Operation::Ora, AddrMode::IndirectY)),
        0x13u8 => Some((Operation::Slo, AddrMode::IndirectY)),
        0x14u8 => Some((Operation::Nop, AddrMode::ZeroX)),
        0x15u8 => Some((Operation::Ora, AddrMode::ZeroX)),
        0x16u8 => Some((Operation::Asl, AddrMode::ZeroX)),
        0x17u8 => Some((Operation::Slo, AddrMode::ZeroX)),
        0x18u8 => Some((Operation::Clc, AddrMode::Implied)),
        0x19u8 => Some((Operation::Ora, AddrMode::AbsoluteY)),
        0x1Au8 => Some((Operation::Nop, AddrMode::Implied)),
        0x1Bu8 => Some((Operation::Slo, AddrMode::AbsoluteY)),
        0x1Cu8 => Some((Operation::Nop, AddrMode::AbsoluteX)),
        0x1Du8 => Some((Operation::Ora, AddrMode::AbsoluteX)),
        0x1Eu8 => Some((Operation::Asl, AddrMode::AbsoluteX)),
        0x1Fu8 => Some((Operation::Slo, AddrMode::AbsoluteX)),
        0x20u8 => Some((Operation::Jsr, AddrMode::Auto)),
        0x21u8 => Some((Operation::And, AddrMode::IndirectX)),
        0x23u8 => Some((Operation::Rla, AddrMode::IndirectX)),
        0x24u8 => Some((Operation::Bit, AddrMode::Zero)),
        0x25u8 => Some((Operation::And, AddrMode::Zero)),
        0x26u8 => Some((Operation::Rol, AddrMode::Zero)),
        0x27u8 => Some((Operation::Rla, AddrMode::Zero)),
        0x28u8 => Some((Operation::Plp, AddrMode::Implied)),
        0x29u8 => Some((Operation::And, AddrMode::Immediate)),
        0x2Au8 => Some((Operation::Rol, AddrMode::Accumulator)),
        0x2Bu8 => Some((Operation::Anc, AddrMode::Auto)),
        0x2Cu8 => Some((Operation::Bit, AddrMode::Absolute)),
        0x2Du8 => Some((Operation::And, AddrMode::Absolute)),
        0x2Eu8 => Some((Operation::Rol, AddrMode::Absolute)),
        0x2Fu8 => Some((Operation::Rla, AddrMode::Absolute)),
        0x30u8 => Some((Operation::Bmi, AddrMode::Relative)),
        0x31u8 => Some((Operation::And, AddrMode::IndirectY)),
        0x33u8 => Some((Operation::Rla, AddrMode::IndirectY)),
        0x34u8 => Some((Operation::Nop, AddrMode::ZeroX)),
        0x35u8 => Some((Operation::And, AddrMode::ZeroX)),
        0x36u8 => Some((Operation::Rol, AddrMode::ZeroX)),
        0x37u8 => Some((Operation::Rla, AddrMode::ZeroX)),
        0x38u8 => Some((Operation::Sec, AddrMode::Implied)),
        0x39u8 => Some((Operation::And, AddrMode::AbsoluteY)),
        0x3Au8 => Some((Operation::Nop, AddrMode::Implied)),
        0x3Bu8 => Some((Operation::Rla, AddrMode::AbsoluteY)),
        0x3Cu8 => Some((Operation::Nop, AddrMode::AbsoluteX)),
        0x3Du8 => Some((Operation::And, AddrMode::AbsoluteX)),
        0x3Eu8 => Some((Operation::Rol, AddrMode::AbsoluteX)),
        0x3Fu8 => Some((Operation::Rla, AddrMode::AbsoluteX)),
        0x40u8 => Some((Operation::Rti, AddrMode::Auto)),
        0x41u8 => Some((Operation::Eor, AddrMode::IndirectX)),
        0x43u8 => Some((Operation::Sre, AddrMode::IndirectX)),
        0x44u8 => Some((Operation::Nop, AddrMode::Zero)),
        0x45u8 => Some((Operation::Eor, AddrMode::Zero)),
        0x46u8 => Some((Operation::Lsr, AddrMode::Zero)),
        0x47u8 => Some((Operation::Sre, AddrMode::Zero)),
        0x48u8 => Some((Operation::Pha, AddrMode::Implied)),
        0x49u8 => Some((Operation::Eor, AddrMode::Immediate)),
        0x4Au8 => Some((Operation::Lsr, AddrMode::Accumulator)),
        0x4Bu8 => Some((Operation::Asr, AddrMode::Auto)),
        0x4Cu8 => Some((Operation::Jmp, AddrMode::Absolute)),
        0x4Du8 => Some((Operation::Eor, AddrMode::Absolute)),
        0x4Eu8 => Some((Operation::Lsr, AddrMode::Absolute)),
        0x4Fu8 => Some((Operation::Sre, AddrMode::Absolute)),
        0x50u8 => Some((Operation::Bvc, AddrMode::Relative)),
        0x51u8 => Some((Operation::Eor, AddrMode::IndirectY)),
        0x53u8 => Some((Operation::Sre, AddrMode::IndirectY)),
        0x54u8 => Some((Operation::Nop, AddrMode::ZeroX)),
        0x55u8 => Some((Operation::Eor, AddrMode::ZeroX)),
        0x56u8 => Some((Operation::Lsr, AddrMode::ZeroX)),
        0x57u8 => Some((Operation::Sre, AddrMode::ZeroX)),
        0x58u8 => Some((Operation::Cli, AddrMode::Auto)),
        0x59u8 => Some((Operation::Eor, AddrMode::AbsoluteY)),
        0x5Au8 => Some((Operation::Nop, AddrMode::Implied)),
        0x5Bu8 => Some((Operation::Sre, AddrMode::AbsoluteY)),
        0x5Cu8 => Some((Operation::Nop, AddrMode::AbsoluteX)),
        0x5Du8 => Some((Operation::Eor, AddrMode::AbsoluteX)),
        0x5Eu8 => Some((Operation::Lsr, AddrMode::AbsoluteX)),
        0x5Fu8 => Some((Operation::Sre, AddrMode::AbsoluteX)),
        0x60u8 => Some((Operation::Rts, AddrMode::Implied)),
        0x61u8 => Some((Operation::Adc, AddrMode::IndirectX)),
        0x63u8 => Some((Operation::Rra, AddrMode::IndirectX)),
        0x64u8 => Some((Operation::Nop, AddrMode::Zero)),
        0x65u8 => Some((Operation::Adc, AddrMode::Zero)),
        0x66u8 => Some((Operation::Ror, AddrMode::Zero)),
        0x67u8 => Some((Operation::Rra, AddrMode::Zero)),
        0x68u8 => Some((Operation::Pla, AddrMode::Implied)),
        0x69u8 => Some((Operation::Adc, AddrMode::Immediate)),
        0x6Au8 => Some((Operation::Ror, AddrMode::Accumulator)),
        0x6Bu8 => Some((Operation::Arr, AddrMode::Auto)),
        0x6Cu8 => Some((Operation::Jmp, AddrMode::Indirect)),
        0x6Du8 => Some((Operation::Adc, AddrMode::Absolute)),
        0x6Eu8 => Some((Operation::Ror, AddrMode::Absolute)),
        0x6Fu8 => Some((Operation::Rra, AddrMode::Absolute)),
        0x70u8 => Some((Operation::Bvs, AddrMode::Relative)),
        0x71u8 => Some((Operation::Adc, AddrMode::IndirectY)),
        0x73u8 => Some((Operation::Rra, AddrMode::IndirectY)),
        0x74u8 => Some((Operation::Nop, AddrMode::ZeroX)),
        0x75u8 => Some((Operation::Adc, AddrMode::ZeroX)),
        0x76u8 => Some((Operation::Ror, AddrMode::ZeroX)),
        0x77u8 => Some((Operation::Rra, AddrMode::ZeroX)),
        0x78u8 => Some((Operation::Sei, AddrMode::Auto)),
        0x79u8 => Some((Operation::Adc, AddrMode::AbsoluteY)),
        0x7Au8 => Some((Operation::Nop, AddrMode::Implied)),
        0x7Bu8 => Some((Operation::Rra, AddrMode::AbsoluteY)),
        0x7Cu8 => Some((Operation::Nop, AddrMode::AbsoluteX)),
        0x7Du8 => Some((Operation::Adc, AddrMode::AbsoluteX)),
        0x7Eu8 => Some((Operation::Ror, AddrMode::AbsoluteX)),
        0x7Fu8 => Some((Operation::Rra, AddrMode::AbsoluteX)),
        0x80u8 => Some((Operation::Nop, AddrMode::Immediate)),
        0x81u8 => Some((Operation::Sta, AddrMode::IndirectX)),
        0x82u8 => Some((Operation::Nop, AddrMode::Immediate)),
        0x83u8 => Some((Operation::Sax, AddrMode::IndirectX)),
        0x84u8 => Some((Operation::Sty, AddrMode::Zero)),
        0x85u8 => Some((Operation::Sta, AddrMode::Zero)),
        0x86u8 => Some((Operation::Stx, AddrMode::Zero)),
        0x87u8 => Some((Operation::Sax, AddrMode::Zero)),
        0x88u8 => Some((Operation::Dey, AddrMode::Implied)),
        0x89u8 => Some((Operation::Nop, AddrMode::Immediate)),
        0x8Au8 => Some((Operation::Txa, AddrMode::Implied)),
        0x8Bu8 => Some((Operation::Ane, AddrMode::Auto)),
        0x8Cu8 => Some((Operation::Sty, AddrMode::Absolute)),
        0x8Du8 => Some((Operation::Sta, AddrMode::Absolute)),
        0x8Eu8 => Some((Operation::Stx, AddrMode::Absolute)),
        0x8Fu8 => Some((Operation::Sax, AddrMode::Absolute)),
        0x90u8 => Some((Operation::Bcc, AddrMode::Relative)),
        0x91u8 => Some((Operation::Sta, AddrMode::IndirectY)),
        0x93u8 => Some((Operation::Sha, AddrMode::IndirectY)),
        0x94u8 => Some((Operation::Sty, AddrMode::ZeroX)),
        0x95u8 => Some((Operation::Sta, AddrMode::ZeroX)),
        0x96u8 => Some((Operation::Stx, AddrMode::ZeroY)),
        0x97u8 => Some((Operation::Sax, AddrMode::ZeroY)),
        0x98u8 => Some((Operation::Tya, AddrMode::Implied)),
        0x99u8 => Some((Operation::Sta, AddrMode::AbsoluteY)),
        0x9Au8 => Some((Operation::Txs, AddrMode::Implied)),
        0x9Bu8 => Some((Operation::Shs, AddrMode::Auto)),
        0x9Cu8 => Some((Operation::Shy, AddrMode::Auto)),
        0x9Du8 => Some((Operation::Sta, AddrMode::AbsoluteX)),
        0x9Eu8 => Some((Operation::Shx, AddrMode::Auto)),
        0x9Fu8 => Some((Operation::Sha, AddrMode::AbsoluteY)),
        0xA0u8 => Some((Operation::Ldy, AddrMode::Immediate)),
        0xA1u8 => Some((Operation::Lda, AddrMode::IndirectX)),
        0xA2u8 => Some((Operation::Ldx, AddrMode::Immediate)),
        0xA3u8 => Some((Operation::Lax, AddrMode::IndirectX)),
        0xA4u8 => Some((Operation::Ldy, AddrMode::Zero)),
        0xA5u8 => Some((Operation::Lda, AddrMode::Zero)),
        0xA6u8 => Some((Operation::Ldx, AddrMode::Zero)),
        0xA7u8 => Some((Operation::Lax, AddrMode::Zero)),
        0xA8u8 => Some((Operation::Tay, AddrMode::Implied)),
        0xA9u8 => Some((Operation::Lda, AddrMode::Immediate)),
        0xAAu8 => Some((Operation::Tax, AddrMode::Implied)),
        0xABu8 => Some((Operation::Lxa, AddrMode::Auto)),
        0xACu8 => Some((Operation::Ldy, AddrMode::Absolute)),
        0xADu8 => Some((Operation::Lda, AddrMode::Absolute)),
        0xAEu8 => Some((Operation::Ldx, AddrMode::Absolute)),
        0xAFu8 => Some((Operation::Lax, AddrMode::Absolute)),
        0xB0u8 => Some((Operation::Bcs, AddrMode::Relative)),
        0xB1u8 => Some((Operation::Lda, AddrMode::IndirectY)),
        0xB3u8 => Some((Operation::Lax, AddrMode::IndirectY)),
        0xB4u8 => Some((Operation::Ldy, AddrMode::ZeroX)),
        0xB5u8 => Some((Operation::Lda, AddrMode::ZeroX)),
        0xB6u8 => Some((Operation::Ldx, AddrMode::ZeroY)),
        0xB7u8 => Some((Operation::Lax, AddrMode::ZeroY)),
        0xB8u8 => Some((Operation::Clv, AddrMode::Implied)),
        0xB9u8 => Some((Operation::Lda, AddrMode::AbsoluteY)),
        0xBAu8 => Some((Operation::Tsx, AddrMode::Implied)),
        0xBBu8 => Some((Operation::Las, AddrMode::Auto)),
        0xBCu8 => Some((Operation::Ldy, AddrMode::AbsoluteX)),
        0xBDu8 => Some((Operation::Lda, AddrMode::AbsoluteX)),
        0xBEu8 => Some((Operation::Ldx, AddrMode::AbsoluteY)),
        0xBFu8 => Some((Operation::Lax, AddrMode::AbsoluteY)),
        0xC0u8 => Some((Operation::Cpy, AddrMode::Immediate)),
        0xC1u8 => Some((Operation::Cmp, AddrMode::IndirectX)),
        0xC2u8 => Some((Operation::Nop, AddrMode::Immediate)),
        0xC3u8 => Some((Operation::Dcp, AddrMode::IndirectX)),
        0xC4u8 => Some((Operation::Cpy, AddrMode::Zero)),
        0xC5u8 => Some((Operation::Cmp, AddrMode::Zero)),
        0xC6u8 => Some((Operation::Dec, AddrMode::Zero)),
        0xC7u8 => Some((Operation::Dcp, AddrMode::Zero)),
        0xC8u8 => Some((Operation::Iny, AddrMode::Implied)),
        0xC9u8 => Some((Operation::Cmp, AddrMode::Immediate)),
        0xCAu8 => Some((Operation::Dex, AddrMode::Implied)),
        0xCBu8 => Some((Operation::Sbx, AddrMode::Auto)),
        0xCCu8 => Some((Operation::Cpy, AddrMode::Absolute)),
        0xCDu8 => Some((Operation::Cmp, AddrMode::Absolute)),
        0xCEu8 => Some((Operation::Dec, AddrMode::Absolute)),
        0xCFu8 => Some((Operation::Dcp, AddrMode::Absolute)),
        0xD0u8 => Some((Operation::Bne, AddrMode::Relative)),
        0xD1u8 => Some((Operation::Cmp, AddrMode::IndirectY)),
        0xD3u8 => Some((Operation::Dcp, AddrMode::IndirectY)),
        0xD4u8 => Some((Operation::Nop, AddrMode::ZeroX)),
        0xD5u8 => Some((Operation::Cmp, AddrMode::ZeroX)),
        0xD6u8 => Some((Operation::Dec, AddrMode::ZeroX)),
        0xD7u8 => Some((Operation::Dcp, AddrMode::ZeroX)),
        0xD8u8 => Some((Operation::Cld, AddrMode::Auto)),
        0xD9u8 => Some((Operation::Cmp, AddrMode::AbsoluteY)),
        0xDAu8 => Some((Operation::Nop, AddrMode::Implied)),
        0xDBu8 => Some((Operation::Dcp, AddrMode::AbsoluteY)),
        0xDCu8 => Some((Operation::Nop, AddrMode::AbsoluteX)),
        0xDDu8 => Some((Operation::Cmp, AddrMode::AbsoluteX)),
        0xDEu8 => Some((Operation::Dec, AddrMode::AbsoluteX)),
        0xDFu8 => Some((Operation::Dcp, AddrMode::AbsoluteX)),
        0xE0u8 => Some((Operation::Cpx, AddrMode::Immediate)),
        0xE1u8 => Some((Operation::Sbc, AddrMode::IndirectX)),
        0xE2u8 => Some((Operation::Nop, AddrMode::Immediate)),
        0xE3u8 => Some((Operation::Isb, AddrMode::IndirectX)),
        0xE4u8 => Some((Operation::Cpx, AddrMode::Zero)),
        0xE5u8 => Some((Operation::Sbc, AddrMode::Zero)),
        0xE6u8 => Some((Operation::Inc, AddrMode::Zero)),
        0xE7u8 => Some((Operation::Isb, AddrMode::Zero)),
        0xE8u8 => Some((Operation::Inx, AddrMode::Implied)),
        0xE9u8 => Some((Operation::Sbc, AddrMode::Immediate)),
        0xEAu8 => Some((Operation::Nop, AddrMode::Implied)),
        0xEBu8 => Some((Operation::Sbc, AddrMode::Immediate)),
        0xECu8 => Some((Operation::Cpx, AddrMode::Absolute)),
        0xEDu8 => Some((Operation::Sbc, AddrMode::Absolute)),
        0xEEu8 => Some((Operation::Inc, AddrMode::Absolute)),
        0xEFu8 => Some((Operation::Isb, AddrMode::Absolute)),
        0xF0u8 => Some((Operation::Beq, AddrMode::Relative)),
        0xF1u8 => Some((Operation::Sbc, AddrMode::IndirectY)),
        0xF3u8 => Some((Operation::Isb, AddrMode::IndirectY)),
        0xF4u8 => Some((Operation::Nop, AddrMode::ZeroX)),
        0xF5u8 => Some((Operation::Sbc, AddrMode::ZeroX)),
        0xF6u8 => Some((Operation::Inc, AddrMode::ZeroX)),
        0xF7u8 => Some((Operation::Isb, AddrMode::ZeroX)),
        0xF8u8 => Some((Operation::Sed, AddrMode::Auto)),
        0xF9u8 => Some((Operation::Sbc, AddrMode::AbsoluteY)),
        0xFAu8 => Some((Operation::Nop, AddrMode::Implied)),
        0xFBu8 => Some((Operation::Isb, AddrMode::AbsoluteY)),
        0xFCu8 => Some((Operation::Nop, AddrMode::AbsoluteX)),
        0xFDu8 => Some((Operation::Sbc, AddrMode::AbsoluteX)),
        0xFEu8 => Some((Operation::Inc, AddrMode::AbsoluteX)),
        0xFFu8 => Some((Operation::Isb, AddrMode::AbsoluteX)),
        _ => None,
    }
}

pub fn decode(opcode: u8) -> (r: Option<(Operation, AddrMode)>)
    ensures
        r == decode_spec(opcode),
{
    match opcode {
        0x00 => Some((Operation::Brk, AddrMode::Auto)),
        0x01 => Some((Operation::Ora, AddrMode::IndirectX)),
        0x03 => Some((Operation::Slo, AddrMode::IndirectX)),
        0x04 => Some((Operation::Nop, AddrMode::Zero)),
        0x05 => Some((Operation::Ora, AddrMode::Zero)),
        0x06 => Some((Operation::Asl, AddrMode::Zero)),
        0x07 => Some((Operation::Slo, AddrMode::Zero)),
        0x08 => Some((Operation::Php, AddrMode::Implied)),
        0x09 => Some((Operation::Ora, AddrMode::Immediate)),
        0x0A => Some((Operation::Asl, AddrMode::Accumulator)),
        0x0B => Some((Operation::Anc, AddrMode::Auto)),
        0x0C => Some((Operation::Nop, AddrMode::Absolute)),
        0x0D => Some((Operation::Ora, AddrMode::Absolute)),
        0x0E => Some((Operation::Asl, AddrMode::Absolute)),
        0x0F => Some((Operation::Slo, AddrMode::Absolute)),
        0x10 => Some((Operation::Bpl, AddrMode::Relative)),
        0x11 => Some((Operation::Ora, AddrMode::IndirectY)),
        0x13 => Some((Operation::Slo, AddrMode::IndirectY)),
        0x14 => Some((Operation::Nop, AddrMode::ZeroX)),
        0x15 => Some((Operation::Ora, AddrMode::ZeroX)),
        0x16 => Some((Operation::Asl, AddrMode::ZeroX)),
        0x17 => Some((Operation::Slo, AddrMode::ZeroX)),
        0x18 => Some((Operation::Clc, AddrMode::Implied)),
        0x19 => Some((Operation::Ora, AddrMode::AbsoluteY)),
        0x1A => Some((Operation::Nop, AddrMode::Implied)),
        0x1B => Some((Operation::Slo, AddrMode::AbsoluteY)),
        0x1C => Some((Operation::Nop, AddrMode::AbsoluteX)),
        0x1D => Some((Operation::Ora, AddrMode::AbsoluteX)),
        0x1E => Some((Operation::Asl, AddrMode::AbsoluteX)),
        0x1F => Some((Operation::Slo, AddrMode::AbsoluteX)),
        0x20 => Some((Operation::Jsr, AddrMode::Auto)),
        0x21 => Some((Operation::And, AddrMode::IndirectX)),
        0x23 => Some((Operation::Rla, AddrMode::IndirectX)),
        0x24 => Some((Operation::Bit, AddrMode::Zero)),
        0x25 => Some((Operation::And, AddrMode::Zero)),
        0x26 => Some((Operation::Rol, AddrMode::Zero)),
        0x27 => Some((Operation::Rla, AddrMode::Zero)),
        0x28 => Some((Operation::Plp, AddrMode::Implied)),
        0x29 => Some((Operation::And, AddrMode::Immediate)),
        0x2A => Some((Operation::Rol, AddrMode::Accumulator)),
        0x2B => Some((Operation::Anc, AddrMode::Auto)),
        0x2C => Some((Operation::Bit, AddrMode::Absolute)),
        0x2D => Some((Operation::And, AddrMode::Absolute)),
        0x2E => Some((Operation::Rol, AddrMode::Absolute)),
        0x2F => Some((Operation::Rla, AddrMode::Absolute)),
        0x30 => Some((Operation::Bmi, AddrMode::Relative)),
        0x31 => Some((Operation::And, AddrMode::IndirectY)),
        0x33 => Some((Operation::Rla, AddrMode::IndirectY)),
        0x34 => Some((Operation::Nop, AddrMode::ZeroX)),
        0x35 => Some((Operation::And, AddrMode::ZeroX)),
        0x36 => Some((Operation::Rol, AddrMode::ZeroX)),
        0x37 => Some((Operation::Rla, AddrMode::ZeroX)),
        0x38 => Some((Operation::Sec, AddrMode::Implied)),
        0x39 => Some((Operation::And, AddrMode::AbsoluteY)),
        0x3A => Some((Operation::Nop, AddrMode::Implied)),
        0x3B => Some((Operation::Rla, AddrMode::AbsoluteY)),
        0x3C => Some((Operation::Nop, AddrMode::AbsoluteX)),
        0x3D => Some((Operation::And, AddrMode::AbsoluteX)),
        0x3E => Some((Operation::Rol, AddrMode::AbsoluteX)),
        0x3F => Some((Operation::Rla, AddrMode::AbsoluteX)),
        0x40 => Some((Operation::Rti, AddrMode::Auto)),
        0x41 => Some((Operation::Eor, AddrMode::IndirectX)),
        0x43 => Some((Operation::Sre, AddrMode::IndirectX)),
        0x44 => Some((Operation::Nop, AddrMode::Zero)),
        0x45 => Some((Operation::Eor, AddrMode::Zero)),
        0x46 => Some((Operation::Lsr, AddrMode::Zero)),
        0x47 => Some((Operation::Sre, AddrMode::Zero)),
        0x48 => Some((Operation::Pha, AddrMode::Implied)),
        0x49 => Some((Operation::Eor, AddrMode::Immediate)),
        0x4A => Some((Operation::Lsr, AddrMode::Accumulator)),
        0x4B => Some((Operation::Asr, AddrMode::Auto)),
        0x4C => Some((Operation::Jmp, AddrMode::Absolute)),
        0x4D => Some((Operation::Eor, AddrMode::Absolute)),
        0x4E => Some((Operation::Lsr, AddrMode::Absolute)),
        0x4F => Some((Operation::Sre, AddrMode::Absolute)),
        0x50 => Some((Operation::Bvc, AddrMode::Relative)),
        0x51 => Some((Operation::Eor, AddrMode::IndirectY)),
        0x53 => Some((Operation::Sre, AddrMode::IndirectY)),
        0x54 => Some((Operation::Nop, AddrMode::ZeroX)),
        0x55 => Some((Operation::Eor, AddrMode::ZeroX)),
        0x56 => Some((Operation::Lsr, AddrMode::ZeroX)),
        0x57 => Some((Operation::Sre, AddrMode::ZeroX)),
        0x58 => Some((Operation::Cli, AddrMode::Auto)),
        0x59 => Some((Operation::Eor, AddrMode::AbsoluteY)),
        0x5A => Some((Operation::Nop, AddrMode::Implied)),
        0x5B => Some((Operation::Sre, AddrMode::AbsoluteY)),
        0x5C => Some((Operation::Nop, AddrMode::AbsoluteX)),
        0x5D => Some((Operation::Eor, AddrMode::AbsoluteX)),
        0x5E => Some((Operation::Lsr, AddrMode::AbsoluteX)),
        0x5F => Some((Operation::Sre, AddrMode::AbsoluteX)),
        0x60 => Some((Operation::Rts, AddrMode::Implied)),
        0x61 => Some((Operation::Adc, AddrMode::IndirectX)),
        0x63 => Some((Operation::Rra, AddrMode::IndirectX)),
        0x64 => Some((Operation::Nop, AddrMode::Zero)),
        0x65 => Some((Operation::Adc, AddrMode::Zero)),
        0x66 => Some((Operation::Ror, AddrMode::Zero)),
        0x67 => Some((Operation::Rra, AddrMode::Zero)),
        0x68 => Some((Operation::Pla, AddrMode::Implied)),
        0x69 => Some((Operation::Adc, AddrMode::Immediate)),
        0x6A => Some((Operation::Ror, AddrMode::Accumulator)),
        0x6B => Some((Operation::Arr, AddrMode::Auto)),
        0x6C => Some((Operation::Jmp, AddrMode::Indirect)),
        0x6D => Some((Operation::Adc, AddrMode::Absolute)),
        0x6E => Some((Operation::Ror, AddrMode::Absolute)),
        0x6F => Some((Operation::Rra, AddrMode::Absolute)),
        0x70 => Some((Operation::Bvs, AddrMode::Relative)),
        0x71 => Some((Operation::Adc, AddrMode::IndirectY)),
        0x73 => Some((Operation::Rra, AddrMode::IndirectY)),
        0x74 => Some((Operation::Nop, AddrMode::ZeroX)),
        0x75 => Some((Operation::Adc, AddrMode::ZeroX)),
        0x76 => Some((Operation::Ror, AddrMode::ZeroX)),
        0x77 => Some((Operation::Rra, AddrMode::ZeroX)),
        0x78 => Some((Operation::Sei, AddrMode::Auto)),
        0x79 => Some((Operation::Adc, AddrMode::AbsoluteY)),
        0x7A => Some((Operation::Nop, AddrMode::Implied)),
        0x7B => Some((Operation::Rra, AddrMode::AbsoluteY)),
        0x7C => Some((Operation::Nop, AddrMode::AbsoluteX)),
        0x7D => Some((Operation::Adc, AddrMode::AbsoluteX)),
        0x7E => Some((Operation::Ror, AddrMode::AbsoluteX)),
        0x7F => Some((Operation::Rra, AddrMode::AbsoluteX)),
        0x80 => Some((Operation::Nop, AddrMode::Immediate)),
        0x81 => Some((Operation::Sta, AddrMode::IndirectX)),
        0x82 => Some((Operation::Nop, AddrMode::Immediate)),
        0x83 => Some((Operation::Sax, AddrMode::IndirectX)),
        0x84 => Some((Operation::Sty, AddrMode::Zero)),
        0x85 => Some((Operation::Sta, AddrMode::Zero)),
        0x86 => Some((Operation::Stx, AddrMode::Zero)),
        0x87 => Some((Operation::Sax, AddrMode::Zero)),
        0x88 => Some((Operation::Dey, AddrMode::Implied)),
        0x89 => Some((Operation::Nop, AddrMode::Immediate)),
        0x8A => Some((Operation::Txa, AddrMode::Implied)),
        0x8B => Some((Operation::Ane, AddrMode::Auto)),
        0x8C => Some((Operation::Sty, AddrMode::Absolute)),
        0x8D => Some((Operation::Sta, AddrMode::Absolute)),
        0x8E => Some((Operation::Stx, AddrMode::Absolute)),
        0x8F => Some((Operation::Sax, AddrMode::Absolute)),
        0x90 => Some((Operation::Bcc, AddrMode::Relative)),
        0x91 => Some((Operation::Sta, AddrMode::IndirectY)),
        0x93 => Some((Operation::Sha, AddrMode::IndirectY)),
        0x94 => Some((Operation::Sty, AddrMode::ZeroX)),
        0x95 => Some((Operation::Sta, AddrMode::ZeroX)),
        0x96 => Some((Operation::Stx, AddrMode::ZeroY)),
        0x97 => Some((Operation::Sax, AddrMode::ZeroY)),
        0x98 => Some((Operation::Tya, AddrMode::Implied)),
        0x99 => Some((Operation::Sta, AddrMode::AbsoluteY)),
        0x9A => Some((Operation::Txs, AddrMode::Implied)),
        0x9B => Some((Operation::Shs, AddrMode::Auto)),
        0x9C => Some((Operation::Shy, AddrMode::Auto)),
        0x9D => Some((Operation::Sta, AddrMode::AbsoluteX)),
        0x9E => Some((Operation::Shx, AddrMode::Auto)),
        0x9F => Some((Operation::Sha, AddrMode::AbsoluteY)),
        0xA0 => Some((Operation::Ldy, AddrMode::Immediate)),
        0xA1 => Some((Operation::Lda, AddrMode::IndirectX)),
        0xA2 => Some((Operation::Ldx, AddrMode::Immediate)),
        0xA3 => Some((Operation::Lax, AddrMode::IndirectX)),
        0xA4 => Some((Operation::Ldy, AddrMode::Zero)),
        0xA5 => Some((Operation::Lda, AddrMode::Zero)),
        0xA6 => Some((Operation::Ldx, AddrMode::Zero)),
        0xA7 => Some((Operation::Lax, AddrMode::Zero)),
        0xA8 => Some((Operation::Tay, AddrMode::Implied)),
        0xA9 => Some((Operation::Lda, AddrMode::Immediate)),
        0xAA => Some((Operation::Tax, AddrMode::Implied)),
        0xAB => Some((Operation::Lxa, AddrMode::Auto)),
        0xAC => Some((Operation::Ldy, AddrMode::Absolute)),
        0xAD => Some((Operation::Lda, AddrMode::Absolute)),
        0xAE => Some((Operation::Ldx, AddrMode::Absolute)),
        0xAF => Some((Operation::Lax, AddrMode::Absolute)),
        0xB0 => Some((Operation::Bcs, AddrMode::Relative)),
        0xB1 => Some((Operation::Lda, AddrMode::IndirectY)),
        0xB3 => Some((Operation::Lax, AddrMode::IndirectY)),
        0xB4 => Some((Operation::Ldy, AddrMode::ZeroX)),
        0xB5 => Some((Operation::Lda, AddrMode::ZeroX)),
        0xB6 => Some((Operation::Ldx, AddrMode::ZeroY)),
        0xB7 => Some((Operation::Lax, AddrMode::ZeroY)),
        0xB8 => Some((Operation::Clv, AddrMode::Implied)),
        0xB9 => Some((Operation::Lda, AddrMode::AbsoluteY)),
        0xBA => Some((Operation::Tsx, AddrMode::Implied)),
        0xBB => Some((Operation::Las, AddrMode::Auto)),
        0xBC => Some((Operation::Ldy, AddrMode::AbsoluteX)),
        0xBD => Some((Operation::Lda, AddrMode::AbsoluteX)),
        0xBE => Some((Operation::Ldx, AddrMode::AbsoluteY)),
        0xBF => Some((Operation::Lax, AddrMode::AbsoluteY)),
        0xC0 => Some((Operation::Cpy, AddrMode::Immediate)),
        0xC1 => Some((Operation::Cmp, AddrMode::IndirectX)),
        0xC2 => Some((Operation::Nop, AddrMode::Immediate)),
        0xC3 => Some((Operation::Dcp, AddrMode::IndirectX)),
        0xC4 => Some((Operation::Cpy, AddrMode::Zero)),
        0xC5 => Some((Operation::Cmp, AddrMode::Zero)),
        0xC6 => Some((Operation::Dec, AddrMode::Zero)),
        0xC7 => Some((Operation::Dcp, AddrMode::Zero)),
        0xC8 => Some((Operation::Iny, AddrMode::Implied)),
        0xC9 => Some((Operation::Cmp, AddrMode::Immediate)),
        0xCA => Some((Operation::Dex, AddrMode::Implied)),
        0xCB => Some((Operation::Sbx, AddrMode::Auto)),
        0xCC => Some((Operation::Cpy, AddrMode::Absolute)),
        0xCD => Some((Operation::Cmp, AddrMode::Absolute)),
        0xCE => Some((Operation::Dec, AddrMode::Absolute)),
        0xCF => Some((Operation::Dcp, AddrMode::Absolute)),
        0xD0 => Some((Operation::Bne, AddrMode::Relative)),
        0xD1 => Some((Operation::Cmp, AddrMode::IndirectY)),
        0xD3 => Some((Operation::Dcp, AddrMode::IndirectY)),
        0xD4 => Some((Operation::Nop, AddrMode::ZeroX)),
        0xD5 => Some((Operation::Cmp, AddrMode::ZeroX)),
        0xD6 => Some((Operation::Dec, AddrMode::ZeroX)),
        0xD7 => Some((Operation::Dcp, AddrMode::ZeroX)),
        0xD8 => Some((Operation::Cld, AddrMode::Auto)),
        0xD9 => Some((Operation::Cmp, AddrMode::AbsoluteY)),
        0xDA => Some((Operation::Nop, AddrMode::Implied)),
        0xDB => Some((Operation::Dcp, AddrMode::AbsoluteY)),
        0xDC => Some((Operation::Nop, AddrMode::AbsoluteX)),
        0xDD => Some((Operation::Cmp, AddrMode::AbsoluteX)),
        0xDE => Some((Operation::Dec, AddrMode::AbsoluteX)),
        0xDF => Some((Operation::Dcp, AddrMode::AbsoluteX)),
        0xE0 => Some((Operation::Cpx, AddrMode::Immediate)),
        0xE1 => Some((Operation::Sbc, AddrMode::IndirectX)),
        0xE2 => Some((Operation::Nop, AddrMode::Immediate)),
        0xE3 => Some((Operation::Isb, AddrMode::IndirectX)),
        0xE4 => Some((Operation::Cpx, AddrMode::Zero)),
        0xE5 => Some((Operation::Sbc, AddrMode::Zero)),
        0xE6 => Some((Operation::Inc, AddrMode::Zero)),
        0xE7 => Some((Operation::Isb, AddrMode::Zero)),
        0xE8 => Some((Operation::Inx, AddrMode::Implied)),
        0xE9 => Some((Operation::Sbc, AddrMode::Immediate)),
        0xEA => Some((Operation::Nop, AddrMode::Implied)),
        0xEB => Some((Operation::Sbc, AddrMode::Immediate)),
        0xEC => Some((Operation::Cpx, AddrMode::Absolute)),
        0xED => Some((Operation::Sbc, AddrMode::Absolute)),
        0xEE => Some((Operation::Inc, AddrMode::Absolute)),
        0xEF => Some((Operation::Isb, AddrMode::Absolute)),
        0xF0 => Some((Operation::Beq, AddrMode::Relative)),
        0xF1 => Some((Operation::Sbc, AddrMode::IndirectY)),
        0xF3 => Some((Operation::Isb, AddrMode::IndirectY)),
        0xF4 => Some((Operation::Nop, AddrMode::ZeroX)),
        0xF5 => Some((Operation::Sbc, AddrMode::ZeroX)),
        0xF6 => Some((Operation::Inc, AddrMode::ZeroX)),
        0xF7 => Some((Operation::Isb, AddrMode::ZeroX)),
        0xF8 => Some((Operation::Sed, AddrMode::Auto)),
        0xF9 => Some((Operation::Sbc, AddrMode::AbsoluteY)),
        0xFA => Some((Operation::Nop, AddrMode::Implied)),
        0xFB => Some((Operation::Isb, AddrMode::AbsoluteY)),
        0xFC => Some((Operation::Nop, AddrMode::AbsoluteX)),
        0xFD => Some((Operation::Sbc, AddrMode::AbsoluteX)),
        0xFE => Some((Operation::Inc, AddrMode::AbsoluteX)),
        0xFF => Some((Operation::Isb, AddrMode::AbsoluteX)),
        _ => None,
    }
}

pub struct CpuView {
    pub pc: u16,
    pub sp: u8,
    pub status: StatusReg,
    pub acc: u8,
    pub x: u8,
    pub y: u8,
    pub rdy: bool,
    pub stack: Seq<u8>,
    pub prefetch: Option<u8>,
    pub procedure: Option<InstructionProcedure>,
    pub opcode: u8,
}

pub open spec fn cpu_view_wf(c: CpuView) -> bool {
    &&& c.stack.len() == 256
    &&& (c.procedure matches Some(p) ==> proc_wf(p))
}

pub struct Cpu {
    pub pc: u16,
    /// The stack pointer: the stack occupies 0x0100..=0x01FF.
    pub sp: u8,
    pub status: StatusReg,
    pub acc: u8,
    pub x: u8,
    pub y: u8,
    /// The ready line: while it is low the CPU does nothing.
    pub rdy: bool,
    pub stack: Vec<u8>,
    /// The opcode fetched during the last cycle of the previous instruction.
    pub prefetch: Option<u8>,
    pub procedure: Option<InstructionProcedure>,
    /// The opcode of the instruction most recently decoded.
    pub opcode: u8,
}

impl View for Cpu {
    type V = CpuView;

    open spec fn view(&self) -> CpuView {
        CpuView {
            pc: self.pc,
            sp: self.sp,
            status: self.status,
            acc: self.acc,
            x: self.x,
            y: self.y,
            rdy: self.rdy,
            stack: self.stack@,
            prefetch: self.prefetch,
            procedure: self.procedure,
            opcode: self.opcode,
        }
    }
}

/// A 16-bit successor, wrapping.
pub open spec fn inc16(a: u16) -> u16 {
    if a == 0xFFFF { 0 } else { (a + 1) as u16 }
}

/// An 8-bit successor and predecessor, wrapping.
pub open spec fn inc8(a: u8) -> u8 {
    if a == 0xFF { 0 } else { (a + 1) as u8 }
}

pub open spec fn dec8(a: u8) -> u8 {
    if a == 0 { 0xFF } else { (a - 1) as u8 }
}

pub open spec fn concat_spec(high: u8, low: u8) -> u16 {
    (high as int * 256 + low as int) as u16
}

/// An opcode or operand fetch: the byte at PC, then PC advances.
pub open spec fn fetch_spec(m: BusView) -> Result<(u8, BusView), Fault> {
    match read_spec(m, m.cpu.pc) {
        Ok((v, m2)) => Ok((v, BusView { cpu: CpuView { pc: inc16(m.cpu.pc), ..m2.cpu }, ..m2 })),
        Err(f) => Err(f),
    }
}

/// A push: the byte goes to the stack page at SP, then SP drops by one.
pub open spec fn push_spec(m: BusView, data: u8) -> Result<BusView, Fault> {
    match write_spec(m, (0x100 + m.cpu.sp) as u16, data) {
        Ok(m2) => Ok(BusView { cpu: CpuView { sp: dec8(m.cpu.sp), ..m2.cpu }, ..m2 }),
        Err(f) => Err(f),
    }
}

/// A pull: SP rises by one, then the byte on the stack page at SP is read.
pub open spec fn pull_spec(m: BusView) -> Result<(u8, BusView), Fault> {
    let sp = inc8(m.cpu.sp);
    read_spec(BusView { cpu: CpuView { sp, ..m.cpu }, ..m }, (0x100 + sp) as u16)
}

/// The 16-bit address of a high and a low byte.
pub fn addr_concat(high: u8, low: u8) -> (r: u16)
    ensures
        r == concat_spec(high, low),
{
    (high as u16) * 256 + (low as u16)
}

impl Cpu {
    pub open spec fn wf(&self) -> bool {
        cpu_view_wf(self@)
    }

    pub fn fetch(bus: &mut Bus) -> (r: Result<u8, Fault>)
        requires
            old(bus).wf(),
        ensures
            final(bus).wf(),
            value_outcome(r, final(bus)@, fetch_spec(old(bus)@)),
    {
        let pc = bus.cpu.pc;
        match bus.read(pc) {
            Ok(v) => {
                bus.cpu.pc = pc.wrapping_add(1);
                Ok(v)
            },
            Err(f) => Err(f),
        }
    }

    pub fn stack_push(bus: &mut Bus, data: u8) -> (r: Result<(), Fault>)
        requires
            old(bus).wf(),
        ensures
            final(bus).wf(),
            unit_outcome(r, final(bus)@, push_spec(old(bus)@, data)),
    {
        let sp = bus.cpu.sp;
        match bus.write(0x100 + sp as u16, data) {
            Ok(()) => {
                bus.cpu.sp = sp.wrapping_sub(1);
                Ok(())
            },
            Err(f) => Err(f),
        }
    }

    pub fn stack_pop(bus: &mut Bus) -> (r: Result<u8, Fault>)
        requires
            old(bus).wf(),
        ensures
            final(bus).wf(),
            value_outcome(r, final(bus)@, pull_spec(old(bus)@)),
    {
        bus.cpu.sp = bus.cpu.sp.wrapping_add(1);
        let sp = bus.cpu.sp;
        bus.read(0x100 + sp as u16)
    }

    /// Loads PC from the reset vector at 0xFFFC (low byte) and 0xFFFD.
    pub fn init_pc(bus: &mut Bus)
        requires
            old(bus).wf(),
        ensures
            final(bus).wf(),
            final(bus)@ == (BusView {
                cpu: CpuView {
                    pc: concat_spec(
                        crate::cartridge::Cartridge::read_spec(old(bus)@.rom, 0xFFFD),
                        crate::cartridge::Cartridge::read_spec(old(bus)@.rom, 0xFFFC),
                    ),
                    ..old(bus)@.cpu
                },
                ..old(bus)@
            }),
    {
        let high = match bus.cart.read(0xFFFD) {
            Ok(v) => v,
            Err(_) => 0,
        };
        let low = match bus.cart.read(0xFFFC) {
            Ok(v) => v,
            Err(_) => 0,
        };
        bus.cpu.pc = addr_concat(high, low);
    }
}

impl Default for Cpu {
    /// Registers cleared, the ready line high, nothing fetched or in flight.
    fn default() -> (r: Cpu)
        ensures
            r.wf(),
            r.pc == 0 && r.sp == 0 && r.acc == 0 && r.x == 0 && r.y == 0,
            r.status == StatusReg::power_on(),
            r.rdy,
            r.prefetch is None && r.procedure is None,
    {
        Cpu {
            pc: 0,
            sp: 0,
            status: StatusReg::default(),
            acc: 0,
            x: 0,
            y: 0,
            rdy: true,
            stack: crate::memory::zeroed_bytes(256),
            prefetch: None,
            procedure: None,
            opcode: 0,
        }
    }
}

/// The CPU answers the bus for its stack page.
impl BusAccessable for Cpu {
    open spec fn valid(&self) -> bool {
        self.wf()
    }

    fn write(&mut self, addr: u16, data: u8) -> (r: Result<(), Fault>)
        ensures
            0x100 <= addr <= 0x1FF ==> r is Ok && final(self)@ == (CpuView {
                stack: old(self)@.stack.update(addr - 0x100, data),
                ..old(self)@
            }),
            !(0x100 <= addr <= 0x1FF) ==> r == Err::<(), Fault>(Fault::UnsupportedRegister(addr))
                && *final(self) == *old(self),
    {
        if 0x100 <= addr && addr <= 0x1FF {
            self.stack.set((addr - 0x100) as usize, data);
            Ok(())
        } else {
            Err(Fault::UnsupportedRegister(addr))
        }
    }

    fn read(&mut self, addr: u16) -> (r: Result<u8, Fault>)
        ensures
            *final(self) == *old(self),
            0x100 <= addr <= 0x1FF ==> r == Ok::<u8, Fault>(old(self)@.stack[addr - 0x100]),
            !(0x100 <= addr <= 0x1FF) ==> r == Err::<u8, Fault>(Fault::UnsupportedRegister(addr)),
    {
        if 0x100 <= addr && addr <= 0x1FF {
            Ok(self.stack[(addr - 0x100) as usize])
        } else {
            Err(Fault::UnsupportedRegister(addr))
        }
    }
}

} // verus!
