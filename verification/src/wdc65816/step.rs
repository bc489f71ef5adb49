use vstd::prelude::*;

use crate::bus_event::{BusEvent, value_at};
use crate::wdc65816::calls::word_bytes;
use crate::wdc65816::dispatch::{Mode, ReadOp, Reg, RmwOp, Width, hi, lo};
use crate::wdc65816::forms::Flag;
use crate::wdc65816::interrupts::Outcome;
use crate::wdc65816::modes::rd;
use crate::wdc65816::processor::{HasAddressBus, Processor, nz8, read_u8, word, wrap16};
use crate::wdc65816::specials::Dest;
use crate::wdc65816::stack::{moved_s, pull_events, push_events};
use crate::wdc65816::status_register::StatusRegister;
use crate::wdc65816::u24::u24;

verus! {

/// Where a register transfer reads from.
#[derive(Clone, Copy)]
pub enum Src {
    A,
    X,
    Y,
    D,
    S,
}

/// Instructions with a behaviour of their own.
#[derive(Clone, Copy)]
pub enum Special {
    Bra,
    Brl,
    /// JMP: 0 absolute, 1 absolute indirect, 2 absolute indexed indirect,
    /// 3 absolute long, 4 (and above) absolute indirect long.
    Jmp(u8),
    /// BRK (`false`) or COP (`true`).
    Interrupt(bool),
    JsrAbsolute,
    JsrIndexedIndirect,
    JslLong,
    Rti,
    Rtl,
    Rts,
    /// MVN (`true`, addresses count up) or MVP (`false`).
    BlockMove(bool),
    Nop,
    Pea,
    Pei,
    Per,
    Phb,
    Phd,
    Phk,
    Php,
    Plb,
    Pld,
    Plp,
    Tcs,
    Tsc,
    Txs,
    Wai,
    Stp,
    Wdm,
    Xba,
    Xce,
}

/// A decoded 65816 instruction.
#[derive(Clone, Copy)]
pub enum Instr {
    /// A read of an operand through an addressing mode.
    Read(ReadOp, Mode, Width),
    /// A read of an immediate operand, one or two bytes long.
    ReadImm(ReadOp, Width),
    /// REP (`false`) or SEP (`true`).
    Status(bool),
    /// A store of a register (or zero).
    Write(Reg, Mode, Width),
    /// A read-modify-write of memory.
    Rmw(RmwOp, Mode),
    /// A read-modify-write of a register.
    RegOp(Reg, RmwOp),
    BranchIf(Flag, bool),
    SetFlag(Flag, bool),
    /// PHA, PHX, PHY.
    Push(Reg),
    /// PLA, PLX, PLY.
    Pull(Reg),
    /// A register transfer; with `None` it is always 16 bits wide, otherwise the width
    /// flag decides.
    Transfer(Src, Dest, Option<Width>),
    Other(Special),
}

impl Instr {
    /// Register operations name a real register, never the zero register.
    pub open spec fn valid(self) -> bool {
        match self {
            Instr::RegOp(r, _) => !(r is Z),
            Instr::Push(r) => !(r is Z),
            Instr::Pull(r) => !(r is Z),
            _ => true,
        }
    }
}

/// The instruction an opcode stands for.
#[verifier::opaque]
pub open spec fn decode(opcode: u8) -> Instr {
    match opcode {
        0x00u8 => Instr::Other(Special::Interrupt(false)),
        0x01u8 => Instr::Read(ReadOp::Ora, Mode::Dix, Width::A),
        0x02u8 => Instr::Other(Special::Interrupt(true)),
        0x03u8 => Instr::Read(ReadOp::Ora, Mode::Sr, Width::A),
        0x04u8 => Instr::Rmw(RmwOp::Tsb, Mode::D),
        0x05u8 => Instr::Read(ReadOp::Ora, Mode::D, Width::A),
        0x06u8 => Instr::Rmw(RmwOp::Asl, Mode::D),
        0x07u8 => Instr::Read(ReadOp::Ora, Mode::Dil, Width::A),
        0x08u8 => Instr::Other(Special::Php),
        0x09u8 => Instr::ReadImm(ReadOp::Ora, Width::A),
        0x0Au8 => Instr::RegOp(Reg::A, RmwOp::Asl),
        0x0Bu8 => Instr::Other(Special::Phd),
        0x0Cu8 => Instr::Rmw(RmwOp::Tsb, Mode::A),
        0x0Du8 => Instr::Read(ReadOp::Ora, Mode::A, Width::A),
        0x0Eu8 => Instr::Rmw(RmwOp::Asl, Mode::A),
        0x0Fu8 => Instr::Read(ReadOp::Ora, Mode::Al, Width::A),
        0x10u8 => Instr::BranchIf(Flag::N, false),
        0x11u8 => Instr::Read(ReadOp::Ora, Mode::Diy, Width::A),
        0x12u8 => Instr::Read(ReadOp::Ora, Mode::Di, Width::A),
        0x13u8 => Instr::Read(ReadOp::Ora, Mode::Sriy, Width::A),
        0x14u8 => Instr::Rmw(RmwOp::Trb, Mode::D),
        0x15u8 => Instr::Read(ReadOp::Ora, Mode::Dx, Width::A),
        0x16u8 => Instr::Rmw(RmwOp::Asl, Mode::Dx),
        0x17u8 => Instr::Read(ReadOp::Ora, Mode::Dily, Width::A),
        0x18u8 => Instr::SetFlag(Flag::C, false),
        0x19u8 => Instr::Read(ReadOp::Ora, Mode::Ay, Width::A),
        0x1Au8 => Instr::RegOp(Reg::A, RmwOp::Inc),
        0x1Bu8 => Instr::Other(Special::Tcs),
        0x1Cu8 => Instr::Rmw(RmwOp::Trb, Mode::A),
        0x1Du8 => Instr::Read(ReadOp::Ora, Mode::Ax, Width::A),
        0x1Eu8 => Instr::Rmw(RmwOp::Asl, Mode::Ax),
        0x1Fu8 => Instr::Read(ReadOp::Ora, Mode::Alx, Width::A),
        0x20u8 => Instr::Other(Special::JsrAbsolute),
        0x21u8 => Instr::Read(ReadOp::And, Mode::Dix, Width::A),
        0x22u8 => Instr::Other(Special::JslLong),
        0x23u8 => Instr::Read(ReadOp::And, Mode::Sr, Width::A),
        0x24u8 => Instr::Read(ReadOp::Bit, Mode::D, Width::A),
        0x25u8 => Instr::Read(ReadOp::And, Mode::D, Width::A),
        0x26u8 => Instr::Rmw(RmwOp::Rol, Mode::D),
        0x27u8 => Instr::Read(ReadOp::And, Mode::Dil, Width::A),
        0x28u8 => Instr::Other(Special::Plp),
        0x29u8 => Instr::ReadImm(ReadOp::And, Width::A),
        0x2Au8 => Instr::RegOp(Reg::A, RmwOp::Rol),
        0x2Bu8 => Instr::Other(Special::Pld),
        0x2Cu8 => Instr::Read(ReadOp::Bit, Mode::A, Width::A),
        0x2Du8 => Instr::Read(ReadOp::And, Mode::A, Width::A),
        0x2Eu8 => Instr::Rmw(RmwOp::Rol, Mode::A),
        0x2Fu8 => Instr::Read(ReadOp::And, Mode::Al, Width::A),
        0x30u8 => Instr::BranchIf(Flag::N, true),
        0x31u8 => Instr::Read(ReadOp::And, Mode::Diy, Width::A),
        0x32u8 => Instr::Read(ReadOp::And, Mode::Di, Width::A),
        0x33u8 => Instr::Read(ReadOp::And, Mode::Sriy, Width::A),
        0x34u8 => Instr::Read(ReadOp::Bit, Mode::Dx, Width::A),
        0x35u8 => Instr::Read(ReadOp::And, Mode::Dx, Width::A),
        0x36u8 => Instr::Rmw(RmwOp::Rol, Mode::Dx),
        0x37u8 => Instr::Read(ReadOp::And, Mode::Dily, Width::A),
        0x38u8 => Instr::SetFlag(Flag::C, true),
        0x39u8 => Instr::Read(ReadOp::And, Mode::Ay, Width::A),
        0x3Au8 => Instr::RegOp(Reg::A, RmwOp::Dec),
        0x3Bu8 => Instr::Other(Special::Tsc),
        0x3Cu8 => Instr::Read(ReadOp::Bit, Mode::Ax, Width::A),
        0x3Du8 => Instr::Read(ReadOp::And, Mode::Ax, Width::A),
        0x3Eu8 => Instr::Rmw(RmwOp::Rol, Mode::Ax),
        0x3Fu8 => Instr::Read(ReadOp::And, Mode::Alx, Width::A),
        0x40u8 => Instr::Other(Special::Rti),
        0x41u8 => Instr::Read(ReadOp::Eor, Mode::Dix, Width::A),
        0x42u8 => Instr::Other(Special::Wdm),
        0x43u8 => Instr::Read(ReadOp::Eor, Mode::Sr, Width::A),
        0x44u8 => Instr::Other(Special::BlockMove(false)),
        0x45u8 => Instr::Read(ReadOp::Eor, Mode::D, Width::A),
        0x46u8 => Instr::Rmw(RmwOp::Lsr, Mode::D),
        0x47u8 => Instr::Read(ReadOp::Eor, Mode::Dil, Width::A),
        0x48u8 => Instr::Push(Reg::A),
        0x49u8 => Instr::ReadImm(ReadOp::Eor, Width::A),
        0x4Au8 => Instr::RegOp(Reg::A, RmwOp::Lsr),
        0x4Bu8 => Instr::Other(Special::Phk),
        0x4Cu8 => Instr::Other(Special::Jmp(0)),
        0x4Du8 => Instr::Read(ReadOp::Eor, Mode::A, Width::A),
        0x4Eu8 => Instr::Rmw(RmwOp::Lsr, Mode::A),
        0x4Fu8 => Instr::Read(ReadOp::Eor, Mode::Al, Width::A),
        0x50u8 => Instr::BranchIf(Flag::V, false),
        0x51u8 => Instr::Read(ReadOp::Eor, Mode::Diy, Width::A),
        0x52u8 => Instr::Read(ReadOp::Eor, Mode::Di, Width::A),
        0x53u8 => Instr::Read(ReadOp::Eor, Mode::Sriy, Width::A),
        0x54u8 => Instr::Other(Special::BlockMove(true)),
        0x55u8 => Instr::Read(ReadOp::Eor, Mode::Dx, Width::A),
        0x56u8 => Instr::Rmw(RmwOp::Lsr, Mode::Dx),
        0x57u8 => Instr::Read(ReadOp::Eor, Mode::Dily, Width::A),
        0x58u8 => Instr::SetFlag(Flag::I, false),
        0x59u8 => Instr::Read(ReadOp::Eor, Mode::Ay, Width::A),
        0x5Au8 => Instr::Push(Reg::Y),
        0x5Bu8 => Instr::Transfer(Src::A, Dest::D, None),
        0x5Cu8 => Instr::Other(Special::Jmp(3)),
        0x5Du8 => Instr::Read(ReadOp::Eor, Mode::Ax, Width::A),
        0x5Eu8 => Instr::Rmw(RmwOp::Lsr, Mode::Ax),
        0x5Fu8 => Instr::Read(ReadOp::Eor, Mode::Alx, Width::A),
        0x60u8 => Instr::Other(Special::Rts),
        0x61u8 => Instr::Read(ReadOp::Adc, Mode::Dix, Width::A),
        0x62u8 => Instr::Other(Special::Per),
        0x63u8 => Instr::Read(ReadOp::Adc, Mode::Sr, Width::A),
        0x64u8 => Instr::Write(Reg::Z, Mode::D, Width::A),
        0x65u8 => Instr::Read(ReadOp::Adc, Mode::D, Width::A),
        0x66u8 => Instr::Rmw(RmwOp::Ror, Mode::D),
        0x67u8 => Instr::Read(ReadOp::Adc, Mode::Dil, Width::A),
        0x68u8 => Instr::Pull(Reg::A),
        0x69u8 => Instr::ReadImm(ReadOp::Adc, Width::A),
        0x6Au8 => Instr::RegOp(Reg::A, RmwOp::Ror),
        0x6Bu8 => Instr::Other(Special::Rtl),
        0x6Cu8 => Instr::Other(Special::Jmp(1)),
        0x6Du8 => Instr::Read(ReadOp::Adc, Mode::A, Width::A),
        0x6Eu8 => Instr::Rmw(RmwOp::Ror, Mode::A),
        0x6Fu8 => Instr::Read(ReadOp::Adc, Mode::Al, Width::A),
        0x70u8 => Instr::BranchIf(Flag::V, true),
        0x71u8 => Instr::Read(ReadOp::Adc, Mode::Diy, Width::A),
        0x72u8 => Instr::Read(ReadOp::Adc, Mode::Di, Width::A),
        0x73u8 => Instr::Read(ReadOp::Adc, Mode::Sriy, Width::A),
        0x74u8 => Instr::Write(Reg::Z, Mode::Dx, Width::A),
        0x75u8 => Instr::Read(ReadOp::Adc, Mode::Dx, Width::A),
        0x76u8 => Instr::Rmw(RmwOp::Ror, Mode::Dx),
        0x77u8 => Instr::Read(ReadOp::Adc, Mode::Dily, Width::A),
        0x78u8 => Instr::SetFlag(Flag::I, true),
        0x79u8 => Instr::Read(ReadOp::Adc, Mode::Ay, Width::A),
        0x7Au8 => Instr::Pull(Reg::Y),
        0x7Bu8 => Instr::Transfer(Src::D, Dest::A, None),
        0x7Cu8 => Instr::Other(Special::Jmp(2)),
        0x7Du8 => Instr::Read(ReadOp::Adc, Mode::Ax, Width::A),
        0x7Eu8 => Instr::Rmw(RmwOp::Ror, Mode::Ax),
        0x7Fu8 => Instr::Read(ReadOp::Adc, Mode::Alx, Width::A),
        0x80u8 => Instr::Other(Special::Bra),
        0x81u8 => Instr::Write(Reg::A, Mode::Dix, Width::A),
        0x82u8 => Instr::Other(Special::Brl),
        0x83u8 => Instr::Write(Reg::A, Mode::Sr, Width::A),
        0x84u8 => Instr::Write(Reg::Y, Mode::D, Width::Xy),
        0x85u8 => Instr::Write(Reg::A, Mode::D, Width::A),
        0x86u8 => Instr::Write(Reg::X, Mode::D, Width::Xy),
        0x87u8 => Instr::Write(Reg::A, Mode::Dil, Width::A),
        0x88u8 => Instr::RegOp(Reg::Y, RmwOp::Dec),
        0x89u8 => Instr::ReadImm(ReadOp::BitI, Width::A),
        0x8Au8 => Instr::Transfer(Src::X, Dest::A, Some(Width::A)),
        0x8Bu8 => Instr::Other(Special::Phb),
        0x8Cu8 => Instr::Write(Reg::Y, Mode::A, Width::Xy),
        0x8Du8 => Instr::Write(Reg::A, Mode::A, Width::A),
        0x8Eu8 => Instr::Write(Reg::X, Mode::A, Width::Xy),
        0x8Fu8 => Instr::Write(Reg::A, Mode::Al, Width::A),
        0x90u8 => Instr::BranchIf(Flag::C, false),
        0x91u8 => Instr::Write(Reg::A, Mode::Diy, Width::A),
        0x92u8 => Instr::Write(Reg::A, Mode::Di, Width::A),
        0x93u8 => Instr::Write(Reg::A, Mode::Sriy, Width::A),
        0x94u8 => Instr::Write(Reg::Y, Mode::Dx, Width::Xy),
        0x95u8 => Instr::Write(Reg::A, Mode::Dx, Width::A),
        0x96u8 => Instr::Write(Reg::X, Mode::Dy, Width::Xy),
        0x97u8 => Instr::Write(Reg::A, Mode::Dily, Width::A),
        0x98u8 => Instr::Transfer(Src::Y, Dest::A, Some(Width::A)),
        0x99u8 => Instr::Write(Reg::A, Mode::Ay, Width::A),
        0x9Au8 => Instr::Other(Special::Txs),
        0x9Bu8 => Instr::Transfer(Src::X, Dest::Y, Some(Width::Xy)),
        0x9Cu8 => Instr::Write(Reg::Z, Mode::A, Width::A),
        0x9Du8 => Instr::Write(Reg::A, Mode::Ax, Width::A),
        0x9Eu8 => Instr::Write(Reg::Z, Mode::Ax, Width::A),
        0x9Fu8 => Instr::Write(Reg::A, Mode::Alx, Width::A),
        0xA0u8 => Instr::ReadImm(ReadOp::Ldy, Width::Xy),
        0xA1u8 => Instr::Read(ReadOp::Lda, Mode::Dix, Width::A),
        0xA2u8 => Instr::ReadImm(ReadOp::Ldx, Width::Xy),
        0xA3u8 => Instr::Read(ReadOp::Lda, Mode::Sr, Width::A),
        0xA4u8 => Instr::Read(ReadOp::Ldy, Mode::D, Width::Xy),
        0xA5u8 => Instr::Read(ReadOp::Lda, Mode::D, Width::A),
        0xA6u8 => Instr::Read(ReadOp::Ldx, Mode::D, Width::Xy),
        0xA7u8 => Instr::Read(ReadOp::Lda, Mode::Dil, Width::A),
        0xA8u8 => Instr::Transfer(Src::A, Dest::Y, Some(Width::Xy)),
        0xA9u8 => Instr::ReadImm(ReadOp::Lda, Width::A),
        0xAAu8 => Instr::Transfer(Src::A, Dest::X, Some(Width::Xy)),
        0xABu8 => Instr::Other(Special::Plb),
        0xACu8 => Instr::Read(ReadOp::Ldy, Mode::A, Width::Xy),
        0xADu8 => Instr::Read(ReadOp::Lda, Mode::A, Width::A),
        0xAEu8 => Instr::Read(ReadOp::Ldx, Mode::A, Width::Xy),
        0xAFu8 => Instr::Read(ReadOp::Lda, Mode::Al, Width::A),
        0xB0u8 => Instr::BranchIf(Flag::C, true),
        0xB1u8 => Instr::Read(ReadOp::Lda, Mode::Diy, Width::A),
        0xB2u8 => Instr::Read(ReadOp::Lda, Mode::Di, Width::A),
        0xB3u8 => Instr::Read(ReadOp::Lda, Mode::Sriy, Width::A),
        0xB4u8 => Instr::Read(ReadOp::Ldy, Mode::Dx, Width::Xy),
        0xB5u8 => Instr::Read(ReadOp::Lda, Mode::Dx, Width::A),
        0xB6u8 => Instr::Read(ReadOp::Ldx, Mode::Dy, Width::Xy),
        0xB7u8 => Instr::Read(ReadOp::Lda, Mode::Dily, Width::A),
        0xB8u8 => Instr::SetFlag(Flag::V, false),
        0xB9u8 => Instr::Read(ReadOp::Lda, Mode::Ay, Width::A),
        0xBAu8 => Instr::Transfer(Src::S, Dest::X, Some(Width::Xy)),
        0xBBu8 => Instr::Transfer(Src::Y, Dest::X, Some(Width::Xy)),
        0xBCu8 => Instr::Read(ReadOp::Ldy, Mode::Ax, Width::Xy),
        0xBDu8 => Instr::Read(ReadOp::Lda, Mode::Ax, Width::A),
        0xBEu8 => Instr::Read(ReadOp::Ldx, Mode::Ay, Width::Xy),
        0xBFu8 => Instr::Read(ReadOp::Lda, Mode::Alx, Width::A),
        0xC0u8 => Instr::ReadImm(ReadOp::Cpy, Width::Xy),
        0xC1u8 => Instr::Read(ReadOp::Cmp, Mode::Dix, Width::A),
        0xC2u8 => Instr::Status(false),
        0xC3u8 => Instr::Read(ReadOp::Cmp, Mode::Sr, Width::A),
        0xC4u8 => Instr::Read(ReadOp::Cpy, Mode::D, Width::Xy),
        0xC5u8 => Instr::Read(ReadOp::Cmp, Mode::D, Width::A),
        0xC6u8 => Instr::Rmw(RmwOp::Dec, Mode::D),
        0xC7u8 => Instr::Read(ReadOp::Cmp, Mode::Dil, Width::A),
        0xC8u8 => Instr::RegOp(Reg::Y, RmwOp::Inc),
        0xC9u8 => Instr::ReadImm(ReadOp::Cmp, Width::A),
        0xCAu8 => Instr::RegOp(Reg::X, RmwOp::Dec),
        0xCBu8 => Instr::Other(Special::Wai),
        0xCCu8 => Instr::Read(ReadOp::Cpy, Mode::A, Width::Xy),
        0xCDu8 => Instr::Read(ReadOp::Cmp, Mode::A, Width::A),
        0xCEu8 => Instr::Rmw(RmwOp::Dec, Mode::A),
        0xCFu8 => Instr::Read(ReadOp::Cmp, Mode::Al, Width::A),
        0xD0u8 => Instr::BranchIf(Flag::Z, false),
        0xD1u8 => Instr::Read(ReadOp::Cmp, Mode::Diy, Width::A),
        0xD2u8 => Instr::Read(ReadOp::Cmp, Mode::Di, Width::A),
        0xD3u8 => Instr::Read(ReadOp::Cmp, Mode::Sriy, Width::A),
        0xD4u8 => Instr::Other(Special::Pei),
        0xD5u8 => Instr::Read(ReadOp::Cmp, Mode::Dx, Width::A),
        0xD6u8 => Instr::Rmw(RmwOp::Dec, Mode::Dx),
        0xD7u8 => Instr::Read(ReadOp::Cmp, Mode::Dily, Width::A),
        0xD8u8 => Instr::SetFlag(Flag::D, false),
        0xD9u8 => Instr::Read(ReadOp::Cmp, Mode::Ay, Width::A),
        0xDAu8 => Instr::Push(Reg::X),
        0xDBu8 => Instr::Other(Special::Stp),
        0xDCu8 => Instr::Other(Special::Jmp(4)),
        0xDDu8 => Instr::Read(ReadOp::Cmp, Mode::Ax, Width::A),
        0xDEu8 => Instr::Rmw(RmwOp::Dec, Mode::Ax),
        0xDFu8 => Instr::Read(ReadOp::Cmp, Mode::Alx, Width::A),
        0xE0u8 => Instr::ReadImm(ReadOp::Cpx, Width::Xy),
        0xE1u8 => Instr::Read(ReadOp::Sbc, Mode::Dix, Width::A),
        0xE2u8 => Instr::Status(true),
        0xE3u8 => Instr::Read(ReadOp::Sbc, Mode::Sr, Width::A),
        0xE4u8 => Instr::Read(ReadOp::Cpx, Mode::D, Width::Xy),
        0xE5u8 => Instr::Read(ReadOp::Sbc, Mode::D, Width::A),
        0xE6u8 => Instr::Rmw(RmwOp::Inc, Mode::D),
        0xE7u8 => Instr::Read(ReadOp::Sbc, Mode::Dil, Width::A),
        0xE8u8 => Instr::RegOp(Reg::X, RmwOp::Inc),
        0xE9u8 => Instr::ReadImm(ReadOp::Sbc, Width::A),
        0xEAu8 => Instr::Other(Special::Nop),
        0xEBu8 => Instr::Other(Special::Xba),
        0xECu8 => Instr::Read(ReadOp::Cpx, Mode::A, Width::Xy),
        0xEDu8 => Instr::Read(ReadOp::Sbc, Mode::A, Width::A),
        0xEEu8 => Instr::Rmw(RmwOp::Inc, Mode::A),
        0xEFu8 => Instr::Read(ReadOp::Sbc, Mode::Al, Width::A),
        0xF0u8 => Instr::BranchIf(Flag::Z, true),
        0xF1u8 => Instr::Read(ReadOp::Sbc, Mode::Diy, Width::A),
        0xF2u8 => Instr::Read(ReadOp::Sbc, Mode::Di, Width::A),
        0xF3u8 => Instr::Read(ReadOp::Sbc, Mode::Sriy, Width::A),
        0xF4u8 => Instr::Other(Special::Pea),
        0xF5u8 => Instr::Read(ReadOp::Sbc, Mode::Dx, Width::A),
        0xF6u8 => Instr::Rmw(RmwOp::Inc, Mode::Dx),
        0xF7u8 => Instr::Read(ReadOp::Sbc, Mode::Dily, Width::A),
        0xF8u8 => Instr::SetFlag(Flag::D, true),
        0xF9u8 => Instr::Read(ReadOp::Sbc, Mode::Ay, Width::A),
        0xFAu8 => Instr::Pull(Reg::X),
        0xFBu8 => Instr::Other(Special::Xce),
        0xFCu8 => Instr::Other(Special::JsrIndexedIndirect),
        0xFDu8 => Instr::Read(ReadOp::Sbc, Mode::Ax, Width::A),
        0xFEu8 => Instr::Rmw(RmwOp::Inc, Mode::Ax),
        _ => Instr::Read(ReadOp::Sbc, Mode::Alx, Width::A),
    }
}

/// Decode an opcode.
#[verifier::rlimit(100)]
pub fn decode_opcode(opcode: u8) -> (r: Instr)
    ensures
        r == decode(opcode),
        r.valid(),
{
    reveal(decode);
    match opcode {
        0x00 => Instr::Other(Special::Interrupt(false)), // BRK
        0x01 => Instr::Read(ReadOp::Ora, Mode::Dix, Width::A), // ORA_DIX
        0x02 => Instr::Other(Special::Interrupt(true)), // COP
        0x03 => Instr::Read(ReadOp::Ora, Mode::Sr, Width::A), // ORA_SR
        0x04 => Instr::Rmw(RmwOp::Tsb, Mode::D), // TSB_D
        0x05 => Instr::Read(ReadOp::Ora, Mode::D, Width::A), // ORA_D
        0x06 => Instr::Rmw(RmwOp::Asl, Mode::D), // ASL_D
        0x07 => Instr::Read(ReadOp::Ora, Mode::Dil, Width::A), // ORA_DIL
        0x08 => Instr::Other(Special::Php), // PHP
        0x09 => Instr::ReadImm(ReadOp::Ora, Width::A), // ORA_I
        0x0A => Instr::RegOp(Reg::A, RmwOp::Asl), // ASL_ACC
        0x0B => Instr::Other(Special::Phd), // PHD
        0x0C => Instr::Rmw(RmwOp::Tsb, Mode::A), // TSB_A
        0x0D => Instr::Read(ReadOp::Ora, Mode::A, Width::A), // ORA_A
        0x0E => Instr::Rmw(RmwOp::Asl, Mode::A), // ASL_A
        0x0F => Instr::Read(ReadOp::Ora, Mode::Al, Width::A), // ORA_AL
        0x10 => Instr::BranchIf(Flag::N, false), // BPL
        0x11 => Instr::Read(ReadOp::Ora, Mode::Diy, Width::A), // ORA_DIY
        0x12 => Instr::Read(ReadOp::Ora, Mode::Di, Width::A), // ORA_DI
        0x13 => Instr::Read(ReadOp::Ora, Mode::Sriy, Width::A), // ORA_SRIY
        0x14 => Instr::Rmw(RmwOp::Trb, Mode::D), // TRB_D
        0x15 => Instr::Read(ReadOp::Ora, Mode::Dx, Width::A), // ORA_DX
        0x16 => Instr::Rmw(RmwOp::Asl, Mode::Dx), // ASL_DX
        0x17 => Instr::Read(ReadOp::Ora, Mode::Dily, Width::A), // ORA_DILY
        0x18 => Instr::SetFlag(Flag::C, false), // CLC
        0x19 => Instr::Read(ReadOp::Ora, Mode::Ay, Width::A), // ORA_AY
        0x1A => Instr::RegOp(Reg::A, RmwOp::Inc), // INC_ACC
        0x1B => Instr::Other(Special::Tcs), // TCS
        0x1C => Instr::Rmw(RmwOp::Trb, Mode::A), // TRB_A
        0x1D => Instr::Read(ReadOp::Ora, Mode::Ax, Width::A), // ORA_AX
        0x1E => Instr::Rmw(RmwOp::Asl, Mode::Ax), // ASL_AX
        0x1F => Instr::Read(ReadOp::Ora, Mode::Alx, Width::A), // ORA_ALX
        0x20 => Instr::Other(Special::JsrAbsolute), // JSR_A
        0x21 => Instr::Read(ReadOp::And, Mode::Dix, Width::A), // AND_DIX
        0x22 => Instr::Other(Special::JslLong), // JSL
        0x23 => Instr::Read(ReadOp::And, Mode::Sr, Width::A), // AND_SR
        0x24 => Instr::Read(ReadOp::Bit, Mode::D, Width::A), // BIT_D
        0x25 => Instr::Read(ReadOp::And, Mode::D, Width::A), // AND_D
        0x26 => Instr::Rmw(RmwOp::Rol, Mode::D), // ROL_D
        0x27 => Instr::Read(ReadOp::And, Mode::Dil, Width::A), // AND_DIL
        0x28 => Instr::Other(Special::Plp), // PLP
        0x29 => Instr::ReadImm(ReadOp::And, Width::A), // AND_I
        0x2A => Instr::RegOp(Reg::A, RmwOp::Rol), // ROL_ACC
        0x2B => Instr::Other(Special::Pld), // PLD
        0x2C => Instr::Read(ReadOp::Bit, Mode::A, Width::A), // BIT_A
        0x2D => Instr::Read(ReadOp::And, Mode::A, Width::A), // AND_A
        0x2E => Instr::Rmw(RmwOp::Rol, Mode::A), // ROL_A
        0x2F => Instr::Read(ReadOp::And, Mode::Al, Width::A), // AND_AL
        0x30 => Instr::BranchIf(Flag::N, true), // BMI
        0x31 => Instr::Read(ReadOp::And, Mode::Diy, Width::A), // AND_DIY
        0x32 => Instr::Read(ReadOp::And, Mode::Di, Width::A), // AND_DI
        0x33 => Instr::Read(ReadOp::And, Mode::Sriy, Width::A), // AND_SRIY
        0x34 => Instr::Read(ReadOp::Bit, Mode::Dx, Width::A), // BIT_DX
        0x35 => Instr::Read(ReadOp::And, Mode::Dx, Width::A), // AND_DX
        0x36 => Instr::Rmw(RmwOp::Rol, Mode::Dx), // ROL_DX
        0x37 => Instr::Read(ReadOp::And, Mode::Dily, Width::A), // AND_DILY
        0x38 => Instr::SetFlag(Flag::C, true), // SEC
        0x39 => Instr::Read(ReadOp::And, Mode::Ay, Width::A), // AND_AY
        0x3A => Instr::RegOp(Reg::A, RmwOp::Dec), // DEC_ACC
        0x3B => Instr::Other(Special::Tsc), // TSC
        0x3C => Instr::Read(ReadOp::Bit, Mode::Ax, Width::A), // BIT_AX
        0x3D => Instr::Read(ReadOp::And, Mode::Ax, Width::A), // AND_AX
        0x3E => Instr::Rmw(RmwOp::Rol, Mode::Ax), // ROL_AX
        0x3F => Instr::Read(ReadOp::And, Mode::Alx, Width::A), // AND_ALX
        0x40 => Instr::Other(Special::Rti), // RTI
        0x41 => Instr::Read(ReadOp::Eor, Mode::Dix, Width::A), // EOR_DIX
        0x42 => Instr::Other(Special::Wdm), // WDM
        0x43 => Instr::Read(ReadOp::Eor, Mode::Sr, Width::A), // EOR_SR
        0x44 => Instr::Other(Special::BlockMove(false)), // MVP
        0x45 => Instr::Read(ReadOp::Eor, Mode::D, Width::A), // EOR_D
        0x46 => Instr::Rmw(RmwOp::Lsr, Mode::D), // LSR_D
        0x47 => Instr::Read(ReadOp::Eor, Mode::Dil, Width::A), // EOR_DIL
        0x48 => Instr::Push(Reg::A), // PHA
        0x49 => Instr::ReadImm(ReadOp::Eor, Width::A), // EOR_I
        0x4A => Instr::RegOp(Reg::A, RmwOp::Lsr), // LSR_ACC
        0x4B => Instr::Other(Special::Phk), // PHK
        0x4C => Instr::Other(Special::Jmp(0)), // JMP_A
        0x4D => Instr::Read(ReadOp::Eor, Mode::A, Width::A), // EOR_A
        0x4E => Instr::Rmw(RmwOp::Lsr, Mode::A), // LSR_A
        0x4F => Instr::Read(ReadOp::Eor, Mode::Al, Width::A), // EOR_AL
        0x50 => Instr::BranchIf(Flag::V, false), // BVC
        0x51 => Instr::Read(ReadOp::Eor, Mode::Diy, Width::A), // EOR_DIY
        0x52 => Instr::Read(ReadOp::Eor, Mode::Di, Width::A), // EOR_DI
        0x53 => Instr::Read(ReadOp::Eor, Mode::Sriy, Width::A), // EOR_SRIY
        0x54 => Instr::Other(Special::BlockMove(true)), // MVN
        0x55 => Instr::Read(ReadOp::Eor, Mode::Dx, Width::A), // EOR_DX
        0x56 => Instr::Rmw(RmwOp::Lsr, Mode::Dx), // LSR_DX
        0x57 => Instr::Read(ReadOp::Eor, Mode::Dily, Width::A), // EOR_DILY
        0x58 => Instr::SetFlag(Flag::I, false), // CLI
        0x59 => Instr::Read(ReadOp::Eor, Mode::Ay, Width::A), // EOR_AY
        0x5A => Instr::Push(Reg::Y), // PHY
        0x5B => Instr::Transfer(Src::A, Dest::D, None), // TCD
        0x5C => Instr::Other(Special::Jmp(3)), // JMP_AL
        0x5D => Instr::Read(ReadOp::Eor, Mode::Ax, Width::A), // EOR_AX
        0x5E => Instr::Rmw(RmwOp::Lsr, Mode::Ax), // LSR_AX
        0x5F => Instr::Read(ReadOp::Eor, Mode::Alx, Width::A), // EOR_ALX
        0x60 => Instr::Other(Special::Rts), // RTS
        0x61 => Instr::Read(ReadOp::Adc, Mode::Dix, Width::A), // ADC_DIX
        0x62 => Instr::Other(Special::Per), // PER
        0x63 => Instr::Read(ReadOp::Adc, Mode::Sr, Width::A), // ADC_SR
        0x64 => Instr::Write(Reg::Z, Mode::D, Width::A), // STZ_D
        0x65 => Instr::Read(ReadOp::Adc, Mode::D, Width::A), // ADC_D
        0x66 => Instr::Rmw(RmwOp::Ror, Mode::D), // ROR_D
        0x67 => Instr::Read(ReadOp::Adc, Mode::Dil, Width::A), // ADC_DIL
        0x68 => Instr::Pull(Reg::A), // PLA
        0x69 => Instr::ReadImm(ReadOp::Adc, Width::A), // ADC_I
        0x6A => Instr::RegOp(Reg::A, RmwOp::Ror), // ROR_ACC
        0x6B => Instr::Other(Special::Rtl), // RTL
        0x6C => Instr::Other(Special::Jmp(1)), // JMP_AI
        0x6D => Instr::Read(ReadOp::Adc, Mode::A, Width::A), // ADC_A
        0x6E => Instr::Rmw(RmwOp::Ror, Mode::A), // ROR_A
        0x6F => Instr::Read(ReadOp::Adc, Mode::Al, Width::A), // ADC_AL
        0x70 => Instr::BranchIf(Flag::V, true), // BVS
        0x71 => Instr::Read(ReadOp::Adc, Mode::Diy, Width::A), // ADC_DIY
        0x72 => Instr::Read(ReadOp::Adc, Mode::Di, Width::A), // ADC_DI
        0x73 => Instr::Read(ReadOp::Adc, Mode::Sriy, Width::A), // ADC_SRIY
        0x74 => Instr::Write(Reg::Z, Mode::Dx, Width::A), // STZ_DX
        0x75 => Instr::Read(ReadOp::Adc, Mode::Dx, Width::A), // ADC_DX
        0x76 => Instr::Rmw(RmwOp::Ror, Mode::Dx), // ROR_DX
        0x77 => Instr::Read(ReadOp::Adc, Mode::Dily, Width::A), // ADC_DILY
        0x78 => Instr::SetFlag(Flag::I, true), // SEI
        0x79 => Instr::Read(ReadOp::Adc, Mode::Ay, Width::A), // ADC_AY
        0x7A => Instr::Pull(Reg::Y), // PLY
        0x7B => Instr::Transfer(Src::D, Dest::A, None), // TDC
        0x7C => Instr::Other(Special::Jmp(2)), // JMP_AIX
        0x7D => Instr::Read(ReadOp::Adc, Mode::Ax, Width::A), // ADC_AX
        0x7E => Instr::Rmw(RmwOp::Ror, Mode::Ax), // ROR_AX
        0x7F => Instr::Read(ReadOp::Adc, Mode::Alx, Width::A), // ADC_ALX
        0x80 => Instr::Other(Special::Bra), // BRA
        0x81 => Instr::Write(Reg::A, Mode::Dix, Width::A), // STA_DIX
        0x82 => Instr::Other(Special::Brl), // BRL
        0x83 => Instr::Write(Reg::A, Mode::Sr, Width::A), // STA_SR
        0x84 => Instr::Write(Reg::Y, Mode::D, Width::Xy), // STY_D
        0x85 => Instr::Write(Reg::A, Mode::D, Width::A), // STA_D
        0x86 => Instr::Write(Reg::X, Mode::D, Width::Xy), // STX_D
        0x87 => Instr::Write(Reg::A, Mode::Dil, Width::A), // STA_DIL
        0x88 => Instr::RegOp(Reg::Y, RmwOp::Dec), // DEY
        0x89 => Instr::ReadImm(ReadOp::BitI, Width::A), // BIT_I
        0x8A => Instr::Transfer(Src::X, Dest::A, Some(Width::A)), // TXA
        0x8B => Instr::Other(Special::Phb), // PHB
        0x8C => Instr::Write(Reg::Y, Mode::A, Width::Xy), // STY_A
        0x8D => Instr::Write(Reg::A, Mode::A, Width::A), // STA_A
        0x8E => Instr::Write(Reg::X, Mode::A, Width::Xy), // STX_A
        0x8F => Instr::Write(Reg::A, Mode::Al, Width::A), // STA_AL
        0x90 => Instr::BranchIf(Flag::C, false), // BCC
        0x91 => Instr::Write(Reg::A, Mode::Diy, Width::A), // STA_DIY
        0x92 => Instr::Write(Reg::A, Mode::Di, Width::A), // STA_DI
        0x93 => Instr::Write(Reg::A, Mode::Sriy, Width::A), // STA_SRIY
        0x94 => Instr::Write(Reg::Y, Mode::Dx, Width::Xy), // STY_DX
        0x95 => Instr::Write(Reg::A, Mode::Dx, Width::A), // STA_DX
        0x96 => Instr::Write(Reg::X, Mode::Dy, Width::Xy), // STX_DY
        0x97 => Instr::Write(Reg::A, Mode::Dily, Width::A), // STA_DILY
        0x98 => Instr::Transfer(Src::Y, Dest::A, Some(Width::A)), // TYA
        0x99 => Instr::Write(Reg::A, Mode::Ay, Width::A), // STA_AY
        0x9A => Instr::Other(Special::Txs), // TXS
        0x9B => Instr::Transfer(Src::X, Dest::Y, Some(Width::Xy)), // TXY
        0x9C => Instr::Write(Reg::Z, Mode::A, Width::A), // STZ_A
        0x9D => Instr::Write(Reg::A, Mode::Ax, Width::A), // STA_AX
        0x9E => Instr::Write(Reg::Z, Mode::Ax, Width::A), // STZ_AX
        0x9F => Instr::Write(Reg::A, Mode::Alx, Width::A), // STA_ALX
        0xA0 => Instr::ReadImm(ReadOp::Ldy, Width::Xy), // LDY_I
        0xA1 => Instr::Read(ReadOp::Lda, Mode::Dix, Width::A), // LDA_DIX
        0xA2 => Instr::ReadImm(ReadOp::Ldx, Width::Xy), // LDX_I
        0xA3 => Instr::Read(ReadOp::Lda, Mode::Sr, Width::A), // LDA_SR
        0xA4 => Instr::Read(ReadOp::Ldy, Mode::D, Width::Xy), // LDY_D
        0xA5 => Instr::Read(ReadOp::Lda, Mode::D, Width::A), // LDA_D
        0xA6 => Instr::Read(ReadOp::Ldx, Mode::D, Width::Xy), // LDX_D
        0xA7 => Instr::Read(ReadOp::Lda, Mode::Dil, Width::A), // LDA_DIL
        0xA8 => Instr::Transfer(Src::A, Dest::Y, Some(Width::Xy)), // TAY
        0xA9 => Instr::ReadImm(ReadOp::Lda, Width::A), // LDA_I
        0xAA => Instr::Transfer(Src::A, Dest::X, Some(Width::Xy)), // TAX
        0xAB => Instr::Other(Special::Plb), // PLB
        0xAC => Instr::Read(ReadOp::Ldy, Mode::A, Width::Xy), // LDY_A
        0xAD => Instr::Read(ReadOp::Lda, Mode::A, Width::A), // LDA_A
        0xAE => Instr::Read(ReadOp::Ldx, Mode::A, Width::Xy), // LDX_A
        0xAF => Instr::Read(ReadOp::Lda, Mode::Al, Width::A), // LDA_AL
        0xB0 => Instr::BranchIf(Flag::C, true), // BCS
        0xB1 => Instr::Read(ReadOp::Lda, Mode::Diy, Width::A), // LDA_DIY
        0xB2 => Instr::Read(ReadOp::Lda, Mode::Di, Width::A), // LDA_DI
        0xB3 => Instr::Read(ReadOp::Lda, Mode::Sriy, Width::A), // LDA_SRIY
        0xB4 => Instr::Read(ReadOp::Ldy, Mode::Dx, Width::Xy), // LDY_DX
        0xB5 => Instr::Read(ReadOp::Lda, Mode::Dx, Width::A), // LDA_DX
        0xB6 => Instr::Read(ReadOp::Ldx, Mode::Dy, Width::Xy), // LDX_DY
        0xB7 => Instr::Read(ReadOp::Lda, Mode::Dily, Width::A), // LDA_DILY
        0xB8 => Instr::SetFlag(Flag::V, false), // CLV
        0xB9 => Instr::Read(ReadOp::Lda, Mode::Ay, Width::A), // LDA_AY
        0xBA => Instr::Transfer(Src::S, Dest::X, Some(Width::Xy)), // TSX
        0xBB => Instr::Transfer(Src::Y, Dest::X, Some(Width::Xy)), // TYX
        0xBC => Instr::Read(ReadOp::Ldy, Mode::Ax, Width::Xy), // LDY_AX
        0xBD => Instr::Read(ReadOp::Lda, Mode::Ax, Width::A), // LDA_AX
        0xBE => Instr::Read(ReadOp::Ldx, Mode::Ay, Width::Xy), // LDX_AY
        0xBF => Instr::Read(ReadOp::Lda, Mode::Alx, Width::A), // LDA_ALX
        0xC0 => Instr::ReadImm(ReadOp::Cpy, Width::Xy), // CPY_I
        0xC1 => Instr::Read(ReadOp::Cmp, Mode::Dix, Width::A), // CMP_DIX
        0xC2 => Instr::Status(false), // REP_I
        0xC3 => Instr::Read(ReadOp::Cmp, Mode::Sr, Width::A), // CMP_SR
        0xC4 => Instr::Read(ReadOp::Cpy, Mode::D, Width::Xy), // CPY_D
        0xC5 => Instr::Read(ReadOp::Cmp, Mode::D, Width::A), // CMP_D
        0xC6 => Instr::Rmw(RmwOp::Dec, Mode::D), // DEC_D
        0xC7 => Instr::Read(ReadOp::Cmp, Mode::Dil, Width::A), // CMP_DIL
        0xC8 => Instr::RegOp(Reg::Y, RmwOp::Inc), // INY
        0xC9 => Instr::ReadImm(ReadOp::Cmp, Width::A), // CMP_I
        0xCA => Instr::RegOp(Reg::X, RmwOp::Dec), // DEX
        0xCB => Instr::Other(Special::Wai), // WAI
        0xCC => Instr::Read(ReadOp::Cpy, Mode::A, Width::Xy), // CPY_A
        0xCD => Instr::Read(ReadOp::Cmp, Mode::A, Width::A), // CMP_A
        0xCE => Instr::Rmw(RmwOp::Dec, Mode::A), // DEC_A
        0xCF => Instr::Read(ReadOp::Cmp, Mode::Al, Width::A), // CMP_AL
        0xD0 => Instr::BranchIf(Flag::Z, false), // BNE
        0xD1 => Instr::Read(ReadOp::Cmp, Mode::Diy, Width::A), // CMP_DIY
        0xD2 => Instr::Read(ReadOp::Cmp, Mode::Di, Width::A), // CMP_DI
        0xD3 => Instr::Read(ReadOp::Cmp, Mode::Sriy, Width::A), // CMP_SRIY
        0xD4 => Instr::Other(Special::Pei), // PEI
        0xD5 => Instr::Read(ReadOp::Cmp, Mode::Dx, Width::A), // CMP_DX
        0xD6 => Instr::Rmw(RmwOp::Dec, Mode::Dx), // DEC_DX
        0xD7 => Instr::Read(ReadOp::Cmp, Mode::Dily, Width::A), // CMP_DILY
        0xD8 => Instr::SetFlag(Flag::D, false), // CLD
        0xD9 => Instr::Read(ReadOp::Cmp, Mode::Ay, Width::A), // CMP_AY
        0xDA => Instr::Push(Reg::X), // PHX
        0xDB => Instr::Other(Special::Stp), // STP
        0xDC => Instr::Other(Special::Jmp(4)), // JMP_AIL
        0xDD => Instr::Read(ReadOp::Cmp, Mode::Ax, Width::A), // CMP_AX
        0xDE => Instr::Rmw(RmwOp::Dec, Mode::Ax), // DEC_AX
        0xDF => Instr::Read(ReadOp::Cmp, Mode::Alx, Width::A), // CMP_ALX
        0xE0 => Instr::ReadImm(ReadOp::Cpx, Width::Xy), // CPX_I
        0xE1 => Instr::Read(ReadOp::Sbc, Mode::Dix, Width::A), // SBC_DIX
        0xE2 => Instr::Status(true), // SEP_I
        0xE3 => Instr::Read(ReadOp::Sbc, Mode::Sr, Width::A), // SBC_SR
        0xE4 => Instr::Read(ReadOp::Cpx, Mode::D, Width::Xy), // CPX_D
        0xE5 => Instr::Read(ReadOp::Sbc, Mode::D, Width::A), // SBC_D
        0xE6 => Instr::Rmw(RmwOp::Inc, Mode::D), // INC_D
        0xE7 => Instr::Read(ReadOp::Sbc, Mode::Dil, Width::A), // SBC_DIL
        0xE8 => Instr::RegOp(Reg::X, RmwOp::Inc), // INX
        0xE9 => Instr::ReadImm(ReadOp::Sbc, Width::A), // SBC_I
        0xEA => Instr::Other(Special::Nop), // NOP
        0xEB => Instr::Other(Special::Xba), // XBA
        0xEC => Instr::Read(ReadOp::Cpx, Mode::A, Width::Xy), // CPX_A
        0xED => Instr::Read(ReadOp::Sbc, Mode::A, Width::A), // SBC_A
        0xEE => Instr::Rmw(RmwOp::Inc, Mode::A), // INC_A
        0xEF => Instr::Read(ReadOp::Sbc, Mode::Al, Width::A), // SBC_AL
        0xF0 => Instr::BranchIf(Flag::Z, true), // BEQ
        0xF1 => Instr::Read(ReadOp::Sbc, Mode::Diy, Width::A), // SBC_DIY
        0xF2 => Instr::Read(ReadOp::Sbc, Mode::Di, Width::A), // SBC_DI
        0xF3 => Instr::Read(ReadOp::Sbc, Mode::Sriy, Width::A), // SBC_SRIY
        0xF4 => Instr::Other(Special::Pea), // PEA
        0xF5 => Instr::Read(ReadOp::Sbc, Mode::Dx, Width::A), // SBC_DX
        0xF6 => Instr::Rmw(RmwOp::Inc, Mode::Dx), // INC_DX
        0xF7 => Instr::Read(ReadOp::Sbc, Mode::Dily, Width::A), // SBC_DILY
        0xF8 => Instr::SetFlag(Flag::D, true), // SED
        0xF9 => Instr::Read(ReadOp::Sbc, Mode::Ay, Width::A), // SBC_AY
        0xFA => Instr::Pull(Reg::X), // PLX
        0xFB => Instr::Other(Special::Xce), // XCE
        0xFC => Instr::Other(Special::JsrIndexedIndirect), // JSR_AIX
        0xFD => Instr::Read(ReadOp::Sbc, Mode::Ax, Width::A), // SBC_AX
        0xFE => Instr::Rmw(RmwOp::Inc, Mode::Ax), // INC_AX
        _ => Instr::Read(ReadOp::Sbc, Mode::Alx, Width::A), // SBC_ALX
    }
}

impl Processor {
    /// The two bytes a transfer moves out of its source register.
    pub open spec fn src_bytes(self, s: Src) -> (u8, u8) {
        match s {
            Src::A => (self.a, self.b),
            Src::X => (self.xl, self.xh),
            Src::Y => (self.yl, self.yh),
            Src::D => (self.dl, self.dh),
            Src::S => (lo(self.s as int), hi(self.s as int)),
        }
    }

    /// Whether a transfer moves both bytes.
    pub open spec fn transfer_is_wide(self, w: Option<Width>) -> bool {
        match w {
            None => true,
            Some(w) => !self.is_8bit(w),
        }
    }

    /// The outcome of the instructions with a behaviour of their own.
    #[verifier::opaque]
    pub open spec fn special_spec(self, sp: Special, ev: Seq<BusEvent>, n: int) -> Outcome {
        let e = self.p.e;
        match sp {
            Special::Bra => self.bra_spec(ev, n),
            Special::Brl => self.brl_spec(ev, n),
            Special::Jmp(kind) => self.jmp_spec(kind, ev, n),
            Special::Interrupt(cop) => self.software_interrupt_spec(cop, ev, n),
            Special::JsrAbsolute => self.jsr_absolute_spec(ev, n),
            Special::JsrIndexedIndirect => self.jsr_indexed_indirect_spec(ev, n),
            Special::JslLong => self.jsl_long_spec(ev, n),
            Special::Rti => self.rti_spec(ev, n),
            Special::Rtl => Outcome {
                after: Processor {
                    s: moved_s(self.s, 3, e),
                    pc: wrap16(word(value_at(ev, n + 2), value_at(ev, n + 3)) + 1),
                    pbr: value_at(ev, n + 4),
                    ..self
                },
                events: seq![BusEvent::Io, BusEvent::Io] + pull_events(self.s, false, 3, ev, n + 2),
            },
            Special::Rts => Outcome {
                after: Processor {
                    s: moved_s(self.s, 2, e),
                    pc: wrap16(word(value_at(ev, n + 2), value_at(ev, n + 3)) + 1),
                    ..self
                },
                events: seq![BusEvent::Io, BusEvent::Io] + pull_events(self.s, e, 2, ev, n + 2) + seq![BusEvent::Io],
            },
            Special::BlockMove(forward) => self.block_move_spec(forward, ev, n),
            Special::Nop => Outcome { after: self, events: seq![BusEvent::Io] },
            Special::Pea => self.pea_spec(ev, n),
            Special::Pei => self.pei_spec(ev, n),
            Special::Per => self.per_spec(ev, n),
            Special::Phb => Outcome {
                after: Processor { s: moved_s(self.s, -1, e), ..self },
                events: seq![BusEvent::Io] + push_events(self.s, e, seq![self.dbr]),
            },
            Special::Phd => Outcome {
                after: Processor { s: moved_s(self.s, -2, e), ..self },
                events: push_events(self.s, false, word_bytes(self.dr_spec() as int)),
            },
            Special::Phk => Outcome {
                after: Processor { s: moved_s(self.s, -1, e), ..self },
                events: seq![BusEvent::Io] + push_events(self.s, e, seq![self.pbr]),
            },
            Special::Php => Outcome {
                after: Processor { s: moved_s(self.s, -1, e), ..self },
                events: seq![BusEvent::Io] + push_events(self.s, e, seq![self.p.byte_spec(true) as u8]),
            },
            Special::Plb => self.plb_spec(ev, n),
            Special::Pld => self.pld_spec(ev, n),
            Special::Plp => self.plp_spec(ev, n),
            Special::Tcs => Outcome {
                after: (Processor { s: word(self.a, self.b), ..self }).forced(),
                events: seq![BusEvent::Io],
            },
            Special::Tsc => Outcome {
                after: (Processor {
                    a: lo(self.s as int),
                    b: hi(self.s as int),
                    p: StatusRegister { n: self.s >= 0x8000, z: self.s == 0, ..self.p },
                    ..self
                }).forced(),
                events: seq![BusEvent::Io],
            },
            Special::Txs => Outcome {
                after: (Processor { s: word(self.xl, self.xh), ..self }).forced(),
                events: seq![BusEvent::Io],
            },
            Special::Wai => Outcome { after: self, events: seq![] },
            Special::Stp => Outcome { after: self, events: seq![] },
            Special::Wdm => Outcome {
                after: Processor { pc: self.pc_plus(1), ..self },
                events: seq![rd(self.pbr * 0x10000 + self.pc_plus(1), ev, n)],
            },
            Special::Xba => Outcome {
                after: Processor { a: self.b, b: self.a, p: nz8(self.p, self.b), ..self },
                events: seq![BusEvent::Io, BusEvent::Io],
            },
            Special::Xce => Outcome {
                after: (Processor { p: StatusRegister { c: self.p.e, e: self.p.c, ..self.p }, ..self }).forced(),
                events: seq![BusEvent::Io],
            },
        }
    }

    /// The outcome of executing a decoded instruction (the opcode already fetched):
    /// the registers afterwards and the bus cycles, whose read values are taken from
    /// the log `ev` from index `n` on.
    #[verifier::opaque]
    pub open spec fn instr_spec(self, ins: Instr, ev: Seq<BusEvent>, n: int) -> Outcome {
        match ins {
            Instr::Read(op, mode, w) => self.read_func_spec(op, mode, w, ev, n),
            Instr::ReadImm(op, w) => self.read_func_i_spec(op, w, ev, n),
            Instr::Status(set) => self.read_status_spec(set, ev, n),
            Instr::Write(reg, mode, w) => self.write_func_spec(reg, mode, w, ev, n),
            Instr::Rmw(op, mode) => self.rmw_func_spec(op, mode, ev, n),
            Instr::RegOp(reg, op) => Outcome { after: self.reg_func_spec(reg, op), events: seq![BusEvent::Io] },
            Instr::BranchIf(f, value) => self.branch_if_spec(f, value, ev, n),
            Instr::SetFlag(f, value) => Outcome { after: self.with_flag(f, value), events: seq![BusEvent::Io] },
            Instr::Push(reg) => self.push_reg_spec(reg),
            Instr::Pull(reg) => self.pull_reg_spec(reg, ev, n),
            Instr::Transfer(s, d, w) => {
                let (l, h) = self.src_bytes(s);
                Outcome { after: self.transfer_spec(l, h, d, self.transfer_is_wide(w)), events: seq![BusEvent::Io] }
            },
            Instr::Other(sp) => self.special_spec(sp, ev, n),
        }
    }

    #[verifier::rlimit(100)]
    fn execute_special<M: HasAddressBus>(&mut self, sp: Special, memory: &mut M)
        ensures
            final(memory).origin() == old(memory).origin(),
            old(memory).traced() ==> final(memory).traced(),
            ({
                let o = old(self).special_spec(sp, final(memory).bus_events(), old(memory).bus_events().len() as int);
                &&& *final(self) == o.after
                &&& final(memory).bus_events() == old(memory).bus_events() + o.events
            }),
    {
        reveal(Processor::special_spec);
        let ghost ev0 = memory.bus_events();
        match sp {
            Special::Bra => self.bra(memory),
            Special::Brl => self.brl(memory),
            Special::Jmp(kind) => self.jump(kind, memory),
            Special::Interrupt(cop) => self.software_interrupt(cop, memory),
            Special::JsrAbsolute => self.jsr_absolute(memory),
            Special::JsrIndexedIndirect => self.jsr_indexed_indirect(memory),
            Special::JslLong => self.jsl_long(memory),
            Special::Rti => self.rti(memory),
            Special::Rtl => self.rtl(memory),
            Special::Rts => self.rts(memory),
            Special::BlockMove(forward) => self.block_move(forward, memory),
            Special::Nop => {
                memory.io();
                assert(memory.bus_events() =~= ev0 + seq![BusEvent::Io]);
            },
            Special::Pea => self.pea(memory),
            Special::Pei => self.pei(memory),
            Special::Per => self.per(memory),
            Special::Phb => {
                let v = self.dbr;
                self.push_reg_8(v, memory);
            },
            Special::Phd => self.phd(memory),
            Special::Phk => {
                let v = self.pbr;
                self.push_reg_8(v, memory);
            },
            Special::Php => {
                let v = self.p.to_byte(true);
                self.push_reg_8(v, memory);
            },
            Special::Plb => self.plb(memory),
            Special::Pld => self.pld(memory),
            Special::Plp => self.plp(memory),
            Special::Tcs => {
                memory.io();
                let (l, h) = (self.a, self.b);
                self.set_stack(l, h);
                assert(memory.bus_events() =~= ev0 + seq![BusEvent::Io]);
            },
            Special::Tsc => {
                memory.io();
                self.tsc();
                assert(memory.bus_events() =~= ev0 + seq![BusEvent::Io]);
            },
            Special::Txs => {
                memory.io();
                let (l, h) = (self.xl, self.xh);
                self.set_stack(l, h);
                assert(memory.bus_events() =~= ev0 + seq![BusEvent::Io]);
            },
            Special::Wai => {
                assert(memory.bus_events() =~= ev0 + seq![]);
            },
            Special::Stp => {
                assert(memory.bus_events() =~= ev0 + seq![]);
            },
            Special::Wdm => {
                self.wdm(memory);
                assert(memory.bus_events() =~= ev0 + seq![
                    rd(old(self).pbr * 0x10000 + old(self).pc_plus(1), memory.bus_events(), ev0.len() as int),
                ]);
            },
            Special::Xba => self.xba(memory),
            Special::Xce => {
                memory.io();
                self.xce();
                assert(memory.bus_events() =~= ev0 + seq![BusEvent::Io]);
            },
        }
    }

    /// Execute a decoded instruction.
    #[verifier::spinoff_prover]
    #[verifier::rlimit(100)]
    pub fn execute<M: HasAddressBus>(&mut self, ins: Instr, memory: &mut M)
        requires
            ins.valid(),
        ensures
            final(memory).origin() == old(memory).origin(),
            old(memory).traced() ==> final(memory).traced(),
            ({
                let o = old(self).instr_spec(ins, final(memory).bus_events(), old(memory).bus_events().len() as int);
                &&& *final(self) == o.after
                &&& final(memory).bus_events() == old(memory).bus_events() + o.events
            }),
    {
        reveal(Processor::instr_spec);
        let ghost ev0 = memory.bus_events();
        match ins {
            Instr::Read(op, mode, w) => self.read_func(op, mode, w, memory),
            Instr::ReadImm(op, w) => self.read_func_i(op, w, memory),
            Instr::Status(set) => self.read_status(set, memory),
            Instr::Write(reg, mode, w) => self.write_func(reg, mode, w, memory),
            Instr::Rmw(op, mode) => self.read_write_func(op, mode, memory),
            Instr::RegOp(reg, op) => {
                self.reg_func(reg, op, memory);
                assert(memory.bus_events() =~= ev0 + seq![BusEvent::Io]);
            },
            Instr::BranchIf(f, value) => self.branch_if(f, value, memory),
            Instr::SetFlag(f, value) => {
                self.set_flag(f, value, memory);
                assert(memory.bus_events() =~= ev0 + seq![BusEvent::Io]);
            },
            Instr::Push(reg) => self.push_reg(reg, memory),
            Instr::Pull(reg) => self.pull_reg(reg, memory),
            Instr::Transfer(s, d, w) => {
                let (l, h) = match s {
                    Src::A => (self.a, self.b),
                    Src::X => (self.xl, self.xh),
                    Src::Y => (self.yl, self.yh),
                    Src::D => (self.dl, self.dh),
                    Src::S => ((self.s % 0x100) as u8, (self.s / 0x100) as u8),
                };
                let wide = match w {
                    None => true,
                    Some(w) => !self.width_is_8bit(w),
                };
                memory.io();
                self.transfer(l, h, d, wide);
                assert(memory.bus_events() =~= ev0 + seq![BusEvent::Io]);
            },
            Instr::Other(sp) => self.execute_special(sp, memory),
        }
    }

    /// Fetch the instruction at the program counter, decode it and execute it.
    ///
    /// The first bus cycle reads the opcode; the registers afterwards and the remaining
    /// cycles are those of [`Processor::instr_spec`] for the decoded instruction, run
    /// with the program counter moved past the opcode.
    pub fn step<T: HasAddressBus>(&mut self, memory: &mut T)
        ensures
            final(memory).origin() == old(memory).origin(),
            old(memory).traced() ==> final(memory).traced(),
            ({
                let ev = final(memory).bus_events();
                let n = old(memory).bus_events().len() as int;
                let o = (Processor { pc: old(self).pc_plus(1), ..*old(self) }).instr_spec(
                    decode(value_at(ev, n)),
                    ev,
                    n + 1,
                );
                &&& *final(self) == o.after
                &&& ev == old(memory).bus_events() + seq![rd(old(self).pc_addr() as int, ev, n)] + o.events
            }),
    {
        let opcode = read_u8(memory, u24::from(self.pbr, self.pc));
        let ghost mid = memory.bus_events();
        self.pc = self.pc.wrapping_add(1);
        let ins = decode_opcode(opcode);
        self.execute(ins, memory);
        proof {
            let ev = memory.bus_events();
            let n = old(memory).bus_events().len() as int;
            assert(ev.subrange(0, mid.len() as int) =~= mid);
            assert(value_at(ev, n) == opcode);
            assert(ev =~= old(memory).bus_events() + seq![rd(old(self).pc_addr() as int, ev, n)] + (Processor {
                pc: old(self).pc_plus(1),
                ..*old(self)
            }).instr_spec(decode(value_at(ev, n)), ev, n + 1).events);
        }
    }
}

/// Pushing the accumulator (PHA) and pulling it back (PLA) with an 8-bit accumulator:
/// the pull reads the stack byte that the push wrote, and where the memory gives that
/// byte back (as plain RAM does), the accumulator and the stack pointer are as before,
/// N and Z are set from the accumulator, and the program counter is two bytes on.
pub proof fn lemma_push_pull_accumulator(p: Processor, ev1: Seq<BusEvent>, ev2: Seq<BusEvent>, n1: int, n2: int)
    requires
        p.p.a_8bit(),
        !p.p.e || p.s / 0x100 == 1,
    ensures
        ({
            let o1 = (Processor { pc: p.pc_plus(1), ..p }).instr_spec(decode(0x48), ev1, n1);
            let q = o1.after;
            let o2 = (Processor { pc: q.pc_plus(1), ..q }).instr_spec(decode(0x68), ev2, n2);
            &&& o1.events == seq![BusEvent::Io, BusEvent::Write { address: p.s as usize, value: p.a }]
            &&& o2.events == seq![
                BusEvent::Io,
                BusEvent::Io,
                BusEvent::Read { address: p.s as usize, value: value_at(ev2, n2 + 2) },
            ]
            &&& value_at(ev2, n2 + 2) == p.a ==> o2.after == (Processor { pc: wrap16(p.pc + 2), p: nz8(p.p, p.a), ..p })
        }),
{
    let p1 = Processor { pc: p.pc_plus(1), ..p };
    assert(decode(0x48) == Instr::Push(Reg::A) && decode(0x68) == Instr::Pull(Reg::A)) by {
        reveal(decode);
    }
    assert(p1.is_8bit(Processor::reg_width(Reg::A)));
    let o1 = p1.instr_spec(decode(0x48), ev1, n1);
    assert(o1 == p1.push_reg_spec(Reg::A)) by {
        reveal(Processor::instr_spec);
    }
    assert(wrap16(p.s - 0) == p.s);
    assert(push_events(p.s, p.p.e, seq![p.a]) =~= seq![BusEvent::Write { address: p.s as usize, value: p.a }]);
    let q = o1.after;
    assert(q.s == moved_s(p.s, -1, p.p.e));
    let q1 = Processor { pc: q.pc_plus(1), ..q };
    assert(q1.is_8bit(Processor::reg_width(Reg::A)));
    let o2 = q1.instr_spec(decode(0x68), ev2, n2);
    assert(o2 == q1.pull_reg_spec(Reg::A, ev2, n2)) by {
        reveal(Processor::instr_spec);
    }
    assert(crate::wdc65816::stack::pull_addr(q.s, 1, p.p.e) == p.s);
    assert(moved_s(q.s, 1, p.p.e) == p.s);
    assert(pull_events(q.s, p.p.e, 1, ev2, n2 + 2) =~= seq![
        BusEvent::Read { address: p.s as usize, value: value_at(ev2, n2 + 2) },
    ]);
    assert(o1.events =~= seq![BusEvent::Io, BusEvent::Write { address: p.s as usize, value: p.a }]);
    assert(o2.events =~= seq![
        BusEvent::Io,
        BusEvent::Io,
        BusEvent::Read { address: p.s as usize, value: value_at(ev2, n2 + 2) },
    ]);
}

/// The accumulator operation selected by the top three bits of an opcode of the
/// accumulator group (the store, selector 4, aside).
pub open spec fn group_operation(selector: int) -> ReadOp {
    if selector == 0 {
        ReadOp::Ora
    } else if selector == 1 {
        ReadOp::And
    } else if selector == 2 {
        ReadOp::Eor
    } else if selector == 3 {
        ReadOp::Adc
    } else if selector == 5 {
        ReadOp::Lda
    } else if selector == 6 {
        ReadOp::Cmp
    } else {
        ReadOp::Sbc
    }
}

/// The addressing mode selected by bits 2 to 4 of an opcode of the accumulator group:
/// the 6502 modes where the low two bits are 01, the long and stack-relative modes of
/// the 65816 where they are 11.
pub open spec fn group_mode(opcode: u8) -> Mode {
    let m = (opcode / 4) % 8;
    if opcode % 4 == 1 {
        if m == 0 {
            Mode::Dix
        } else if m == 1 {
            Mode::D
        } else if m == 3 {
            Mode::A
        } else if m == 4 {
            Mode::Diy
        } else if m == 5 {
            Mode::Dx
        } else if m == 6 {
            Mode::Ay
        } else {
            Mode::Ax
        }
    } else {
        if m == 0 {
            Mode::Sr
        } else if m == 1 {
            Mode::Dil
        } else if m == 3 {
            Mode::Al
        } else if m == 4 {
            Mode::Sriy
        } else if m == 5 {
            Mode::Dily
        } else {
            Mode::Alx
        }
    }
}

/// The decoding rule of the accumulator group: an opcode whose low two bits are 01, or
/// 11 outside the columns 0x?B, names its operation in its top three bits (ORA, AND,
/// EOR, ADC, STA, LDA, CMP, SBC) and its addressing mode in bits 2 to 4, with the
/// immediate operand in the column 0x?9 (where STA's place is taken by BIT #).
pub open spec fn accumulator_group_rule(opcode: u8) -> bool {
    let sel = opcode / 32;
    let m = (opcode / 4) % 8;
    let in_group = opcode % 4 == 1 || (opcode % 4 == 3 && m != 2 && m != 6);
    let imm = opcode % 4 == 1 && m == 2;
    &&& in_group && !imm && sel != 4 ==> decode(opcode) == Instr::Read(group_operation(sel as int), group_mode(opcode), Width::A)
    &&& imm && sel != 4 ==> decode(opcode) == Instr::ReadImm(group_operation(sel as int), Width::A)
    &&& in_group && !imm && sel == 4 ==> decode(opcode) == Instr::Write(Reg::A, group_mode(opcode), Width::A)
}

/// The operation selected by the top three bits of an opcode of the shift group
/// (selectors 4 and 5, the stores and loads of X, aside).
pub open spec fn shift_operation(selector: int) -> RmwOp {
    if selector == 0 {
        RmwOp::Asl
    } else if selector == 1 {
        RmwOp::Rol
    } else if selector == 2 {
        RmwOp::Lsr
    } else if selector == 3 {
        RmwOp::Ror
    } else if selector == 6 {
        RmwOp::Dec
    } else {
        RmwOp::Inc
    }
}

/// The decoding rule of the shift group: an opcode whose low two bits are 10 and
/// whose top three bits select ASL, ROL, LSR, ROR, DEC or INC works on memory through
/// the mode in bits 2 to 4 (d, a, d,x or a,x for the odd values), and for ASL, ROL,
/// LSR and ROR on the accumulator in the column 0x?A.
pub open spec fn shift_group_rule(opcode: u8) -> bool {
    let sel = opcode / 32;
    let m = (opcode / 4) % 8;
    let mode = if m == 1 { Mode::D } else if m == 3 { Mode::A } else if m == 5 { Mode::Dx } else { Mode::Ax };
    &&& opcode % 4 == 2 && sel != 4 && sel != 5 && m % 2 == 1 ==> decode(opcode) == Instr::Rmw(shift_operation(sel as int), mode)
    &&& opcode % 4 == 2 && sel < 4 && m == 2 ==> decode(opcode) == Instr::RegOp(Reg::A, shift_operation(sel as int))
}

/// The opcode rules of the accumulator and shift groups together.
pub open spec fn opcode_group_rules(opcode: u8) -> bool {
    accumulator_group_rule(opcode) && shift_group_rule(opcode)
}

/// Every opcode follows the decoding rules of the accumulator and shift groups: for
/// instance 0x69 is ADC #, 0x65 ADC d, 0xE9 SBC #, 0x8D STA a, 0x6A ROR A and 0xEE
/// INC a.
pub proof fn lemma_opcode_groups(opcode: u8)
    ensures
        opcode_group_rules(opcode),
{
    if opcode < 0x10 {
        lemma_opcode_row_0(opcode);
    } else if opcode < 0x20 {
        lemma_opcode_row_1(opcode);
    } else if opcode < 0x30 {
        lemma_opcode_row_2(opcode);
    } else if opcode < 0x40 {
        lemma_opcode_row_3(opcode);
    } else if opcode < 0x50 {
        lemma_opcode_row_4(opcode);
    } else if opcode < 0x60 {
        lemma_opcode_row_5(opcode);
    } else if opcode < 0x70 {
        lemma_opcode_row_6(opcode);
    } else if opcode < 0x80 {
        lemma_opcode_row_7(opcode);
    } else if opcode < 0x90 {
        lemma_opcode_row_8(opcode);
    } else if opcode < 0xA0 {
        lemma_opcode_row_9(opcode);
    } else if opcode < 0xB0 {
        lemma_opcode_row_A(opcode);
    } else if opcode < 0xC0 {
        lemma_opcode_row_B(opcode);
    } else if opcode < 0xD0 {
        lemma_opcode_row_C(opcode);
    } else if opcode < 0xE0 {
        lemma_opcode_row_D(opcode);
    } else if opcode < 0xF0 {
        lemma_opcode_row_E(opcode);
    } else {
        lemma_opcode_row_F(opcode);
    }
}

/// Opcodes 0x00 to 0x0F.
#[verifier::rlimit(100)]
proof fn lemma_opcode_row_0(opcode: u8)
    requires
        opcode < 0x10,
    ensures
        opcode_group_rules(opcode),
{
    reveal(decode);
}

/// Opcodes 0x10 to 0x1F.
#[verifier::rlimit(100)]
proof fn lemma_opcode_row_1(opcode: u8)
    requires
        opcode >= 0x10, opcode < 0x20,
    ensures
        opcode_group_rules(opcode),
{
    reveal(decode);
}

/// Opcodes 0x20 to 0x2F.
#[verifier::rlimit(100)]
proof fn lemma_opcode_row_2(opcode: u8)
    requires
        opcode >= 0x20, opcode < 0x30,
    ensures
        opcode_group_rules(opcode),
{
    reveal(decode);
}

/// Opcodes 0x30 to 0x3F.
#[verifier::rlimit(100)]
proof fn lemma_opcode_row_3(opcode: u8)
    requires
        opcode >= 0x30, opcode < 0x40,
    ensures
        opcode_group_rules(opcode),
{
    reveal(decode);
}

/// Opcodes 0x40 to 0x4F.
#[verifier::rlimit(100)]
proof fn lemma_opcode_row_4(opcode: u8)
    requires
        opcode >= 0x40, opcode < 0x50,
    ensures
        opcode_group_rules(opcode),
{
    reveal(decode);
}

/// Opcodes 0x50 to 0x5F.
#[verifier::rlimit(100)]
proof fn lemma_opcode_row_5(opcode: u8)
    requires
        opcode >= 0x50, opcode < 0x60,
    ensures
        opcode_group_rules(opcode),
{
    reveal(decode);
}

/// Opcodes 0x60 to 0x6F.
#[verifier::rlimit(100)]
proof fn lemma_opcode_row_6(opcode: u8)
    requires
        opcode >= 0x60, opcode < 0x70,
    ensures
        opcode_group_rules(opcode),
{
    reveal(decode);
}

/// Opcodes 0x70 to 0x7F.
#[verifier::rlimit(100)]
proof fn lemma_opcode_row_7(opcode: u8)
    requires
        opcode >= 0x70, opcode < 0x80,
    ensures
        opcode_group_rules(opcode),
{
    reveal(decode);
}

/// Opcodes 0x80 to 0x8F.
#[verifier::rlimit(100)]
proof fn lemma_opcode_row_8(opcode: u8)
    requires
        opcode >= 0x80, opcode < 0x90,
    ensures
        opcode_group_rules(opcode),
{
    reveal(decode);
}

/// Opcodes 0x90 to 0x9F.
#[verifier::rlimit(100)]
proof fn lemma_opcode_row_9(opcode: u8)
    requires
        opcode >= 0x90, opcode < 0xA0,
    ensures
        opcode_group_rules(opcode),
{
    reveal(decode);
}

/// Opcodes 0xA0 to 0xAF.
#[verifier::rlimit(100)]
proof fn lemma_opcode_row_A(opcode: u8)
    requires
        opcode >= 0xA0, opcode < 0xB0,
    ensures
        opcode_group_rules(opcode),
{
    reveal(decode);
}

/// Opcodes 0xB0 to 0xBF.
#[verifier::rlimit(100)]
proof fn lemma_opcode_row_B(opcode: u8)
    requires
        opcode >= 0xB0, opcode < 0xC0,
    ensures
        opcode_group_rules(opcode),
{
    reveal(decode);
}

/// Opcodes 0xC0 to 0xCF.
#[verifier::rlimit(100)]
proof fn lemma_opcode_row_C(opcode: u8)
    requires
        opcode >= 0xC0, opcode < 0xD0,
    ensures
        opcode_group_rules(opcode),
{
    reveal(decode);
}

/// Opcodes 0xD0 to 0xDF.
#[verifier::rlimit(100)]
proof fn lemma_opcode_row_D(opcode: u8)
    requires
        opcode >= 0xD0, opcode < 0xE0,
    ensures
        opcode_group_rules(opcode),
{
    reveal(decode);
}

/// Opcodes 0xE0 to 0xEF.
#[verifier::rlimit(100)]
proof fn lemma_opcode_row_E(opcode: u8)
    requires
        opcode >= 0xE0, opcode < 0xF0,
    ensures
        opcode_group_rules(opcode),
{
    reveal(decode);
}

/// Opcodes 0xF0 to 0xFF.
#[verifier::rlimit(100)]
proof fn lemma_opcode_row_F(opcode: u8)
    requires
        opcode >= 0xF0,
    ensures
        opcode_group_rules(opcode),
{
    reveal(decode);
}

/// The flag tested by the conditional branch opcodes 0x10, 0x30, ..., 0xF0: N, V, C
/// and Z in turn, each first branching when clear, then when set (BPL, BMI, BVC, BVS,
/// BCC, BCS, BNE, BEQ).
pub open spec fn branch_flag(p: Processor, k: int) -> bool {
    if k / 2 == 0 {
        p.p.n
    } else if k / 2 == 1 {
        p.p.v
    } else if k / 2 == 2 {
        p.p.c
    } else {
        p.p.z
    }
}

/// Opcode 0x10 + 0x20 * `k` is a conditional branch, taken exactly when the flag
/// `branch_flag` names is clear (for even `k`) or set (for odd `k`).
pub proof fn lemma_branch_opcodes(p: Processor, k: int)
    requires
        0 <= k < 8,
    ensures
        decode((0x10 + 0x20 * k) as u8) matches Instr::BranchIf(f, v) && (p.flag(f) == v) == (branch_flag(p, k)
            == (k % 2 == 1)),
{
    reveal(decode);
}

} // verus!
