use vstd::prelude::*;

use crate::bus_event::{BusEvent, value_at};
use crate::spc700::alu::{BinOp, UnOp};
use crate::spc700::forms::R;
use crate::spc700::forms2::{BitOp, FlagOp};
use crate::spc700::forms3::{StackReg, WordOp, io_cycles};
use crate::spc700::modes::{Mode, Outcome};
use crate::spc700::processor::{HasAddressBus, Processor, nz, rd, rd16, w8, word_at, wr};

verus! {

/// The flag a conditional branch tests.
#[derive(Clone, Copy, Debug)]
pub enum Cond {
    C,
    Z,
    N,
    V,
}

/// A decoded SPC700 instruction.
#[derive(Clone, Copy, Debug)]
pub enum Instr {
    /// A = A op operand (ADC, AND, EOR, OR, SBC)
    ReadA(BinOp, Mode),
    /// CMP with a register
    Compare(R, Mode),
    /// MOV into a register
    Load(R, Mode),
    /// MOV from a register
    Store(R, Mode),
    /// target = target op source, both in memory
    MemBin(BinOp, Mode, Mode),
    /// CMP of two memory operands (left, right)
    CompareMem(Mode, Mode),
    /// A read-modify-write of memory
    Rmw(UnOp, Mode),
    /// A one-operand operation on a register
    RegUn(UnOp, R),
    BranchIf(Cond, bool),
    Bra,
    /// BBS (`true`) or BBC on a bit of a direct page byte
    BitBranch(u8, bool),
    Cbne(Mode),
    DbnzY,
    DbnzD,
    Flag(FlagOp),
    /// MOV between registers (destination, source), setting N and Z
    Transfer(R, R),
    MovSpX,
    MovAXinc,
    MovXincA,
    /// MOV between memory operands (source, destination), without flags
    MovMem(Mode, Mode),
    Bit(BitOp),
    /// CLR1 (`false`) or SET1 on a bit of a direct page byte
    SetBit(u8, bool),
    Word(WordOp),
    Daa,
    Das,
    Div,
    Mul,
    Xcn,
    Push(StackReg),
    Pop(StackReg),
    Ret,
    Reti,
    Call,
    Pcall,
    Tcall(u8),
    Brk,
    JmpAbs,
    JmpIax,
    Nop,
    /// An opcode this processor does not implement (SLEEP, STOP)
    Unknown,
}

impl Instr {
    /// Bit numbers and table indices are in range.
    pub open spec fn valid(self) -> bool {
        match self {
            Instr::BitBranch(b, _) => b < 8,
            Instr::SetBit(b, _) => b < 8,
            Instr::Tcall(k) => k < 16,
            _ => true,
        }
    }
}

/// The instruction an opcode stands for.
#[verifier::opaque]
pub open spec fn decode(opcode: u8) -> Instr {
    match opcode {
        0x00u8 => Instr::Nop,
        0x01u8 => Instr::Tcall(0),
        0x02u8 => Instr::SetBit(0, true),
        0x03u8 => Instr::BitBranch(0, true),
        0x04u8 => Instr::ReadA(BinOp::Or, Mode::D),
        0x05u8 => Instr::ReadA(BinOp::Or, Mode::Abs),
        0x06u8 => Instr::ReadA(BinOp::Or, Mode::Ix),
        0x07u8 => Instr::ReadA(BinOp::Or, Mode::Idx),
        0x08u8 => Instr::ReadA(BinOp::Or, Mode::Imm),
        0x09u8 => Instr::MemBin(BinOp::Or, Mode::D, Mode::D),
        0x0Au8 => Instr::Bit(BitOp::Or1),
        0x0Bu8 => Instr::Rmw(UnOp::Asl, Mode::D),
        0x0Cu8 => Instr::Rmw(UnOp::Asl, Mode::Abs),
        0x0Du8 => Instr::Push(StackReg::Psw),
        0x0Eu8 => Instr::Rmw(UnOp::Tset, Mode::Abs),
        0x0Fu8 => Instr::Brk,
        0x10u8 => Instr::BranchIf(Cond::N, false),
        0x11u8 => Instr::Tcall(1),
        0x12u8 => Instr::SetBit(0, false),
        0x13u8 => Instr::BitBranch(0, false),
        0x14u8 => Instr::ReadA(BinOp::Or, Mode::Dx),
        0x15u8 => Instr::ReadA(BinOp::Or, Mode::AbsX),
        0x16u8 => Instr::ReadA(BinOp::Or, Mode::AbsY),
        0x17u8 => Instr::ReadA(BinOp::Or, Mode::Idy),
        0x18u8 => Instr::MemBin(BinOp::Or, Mode::D, Mode::Imm),
        0x19u8 => Instr::MemBin(BinOp::Or, Mode::Ix, Mode::Iy),
        0x1Au8 => Instr::Word(WordOp::Decw),
        0x1Bu8 => Instr::Rmw(UnOp::Asl, Mode::Dx),
        0x1Cu8 => Instr::RegUn(UnOp::Asl, R::A),
        0x1Du8 => Instr::RegUn(UnOp::Dec, R::X),
        0x1Eu8 => Instr::Compare(R::X, Mode::Abs),
        0x1Fu8 => Instr::JmpIax,
        0x20u8 => Instr::Flag(FlagOp::Clrp),
        0x21u8 => Instr::Tcall(2),
        0x22u8 => Instr::SetBit(1, true),
        0x23u8 => Instr::BitBranch(1, true),
        0x24u8 => Instr::ReadA(BinOp::And, Mode::D),
        0x25u8 => Instr::ReadA(BinOp::And, Mode::Abs),
        0x26u8 => Instr::ReadA(BinOp::And, Mode::Ix),
        0x27u8 => Instr::ReadA(BinOp::And, Mode::Idx),
        0x28u8 => Instr::ReadA(BinOp::And, Mode::Imm),
        0x29u8 => Instr::MemBin(BinOp::And, Mode::D, Mode::D),
        0x2Au8 => Instr::Bit(BitOp::Or1Not),
        0x2Bu8 => Instr::Rmw(UnOp::Rol, Mode::D),
        0x2Cu8 => Instr::Rmw(UnOp::Rol, Mode::Abs),
        0x2Du8 => Instr::Push(StackReg::A),
        0x2Eu8 => Instr::Cbne(Mode::D),
        0x2Fu8 => Instr::Bra,
        0x30u8 => Instr::BranchIf(Cond::N, true),
        0x31u8 => Instr::Tcall(3),
        0x32u8 => Instr::SetBit(1, false),
        0x33u8 => Instr::BitBranch(1, false),
        0x34u8 => Instr::ReadA(BinOp::And, Mode::Dx),
        0x35u8 => Instr::ReadA(BinOp::And, Mode::AbsX),
        0x36u8 => Instr::ReadA(BinOp::And, Mode::AbsY),
        0x37u8 => Instr::ReadA(BinOp::And, Mode::Idy),
        0x38u8 => Instr::MemBin(BinOp::And, Mode::D, Mode::Imm),
        0x39u8 => Instr::MemBin(BinOp::And, Mode::Ix, Mode::Iy),
        0x3Au8 => Instr::Word(WordOp::Incw),
        0x3Bu8 => Instr::Rmw(UnOp::Rol, Mode::Dx),
        0x3Cu8 => Instr::RegUn(UnOp::Rol, R::A),
        0x3Du8 => Instr::RegUn(UnOp::Inc, R::X),
        0x3Eu8 => Instr::Compare(R::X, Mode::D),
        0x3Fu8 => Instr::Call,
        0x40u8 => Instr::Flag(FlagOp::Setp),
        0x41u8 => Instr::Tcall(4),
        0x42u8 => Instr::SetBit(2, true),
        0x43u8 => Instr::BitBranch(2, true),
        0x44u8 => Instr::ReadA(BinOp::Eor, Mode::D),
        0x45u8 => Instr::ReadA(BinOp::Eor, Mode::Abs),
        0x46u8 => Instr::ReadA(BinOp::Eor, Mode::Ix),
        0x47u8 => Instr::ReadA(BinOp::Eor, Mode::Idx),
        0x48u8 => Instr::ReadA(BinOp::Eor, Mode::Imm),
        0x49u8 => Instr::MemBin(BinOp::Eor, Mode::D, Mode::D),
        0x4Au8 => Instr::Bit(BitOp::And1),
        0x4Bu8 => Instr::Rmw(UnOp::Lsr, Mode::D),
        0x4Cu8 => Instr::Rmw(UnOp::Lsr, Mode::Abs),
        0x4Du8 => Instr::Push(StackReg::X),
        0x4Eu8 => Instr::Rmw(UnOp::Tclr, Mode::Abs),
        0x4Fu8 => Instr::Pcall,
        0x50u8 => Instr::BranchIf(Cond::V, false),
        0x51u8 => Instr::Tcall(5),
        0x52u8 => Instr::SetBit(2, false),
        0x53u8 => Instr::BitBranch(2, false),
        0x54u8 => Instr::ReadA(BinOp::Eor, Mode::Dx),
        0x55u8 => Instr::ReadA(BinOp::Eor, Mode::AbsX),
        0x56u8 => Instr::ReadA(BinOp::Eor, Mode::AbsY),
        0x57u8 => Instr::ReadA(BinOp::Eor, Mode::Idy),
        0x58u8 => Instr::MemBin(BinOp::Eor, Mode::D, Mode::Imm),
        0x59u8 => Instr::MemBin(BinOp::Eor, Mode::Ix, Mode::Iy),
        0x5Au8 => Instr::Word(WordOp::Cmpw),
        0x5Bu8 => Instr::Rmw(UnOp::Lsr, Mode::Dx),
        0x5Cu8 => Instr::RegUn(UnOp::Lsr, R::A),
        0x5Du8 => Instr::Transfer(R::X, R::A),
        0x5Eu8 => Instr::Compare(R::Y, Mode::Abs),
        0x5Fu8 => Instr::JmpAbs,
        0x60u8 => Instr::Flag(FlagOp::Clrc),
        0x61u8 => Instr::Tcall(6),
        0x62u8 => Instr::SetBit(3, true),
        0x63u8 => Instr::BitBranch(3, true),
        0x64u8 => Instr::Compare(R::A, Mode::D),
        0x65u8 => Instr::Compare(R::A, Mode::Abs),
        0x66u8 => Instr::Compare(R::A, Mode::Ix),
        0x67u8 => Instr::Compare(R::A, Mode::Idx),
        0x68u8 => Instr::Compare(R::A, Mode::Imm),
        0x69u8 => Instr::CompareMem(Mode::D, Mode::D),
        0x6Au8 => Instr::Bit(BitOp::And1Not),
        0x6Bu8 => Instr::Rmw(UnOp::Ror, Mode::D),
        0x6Cu8 => Instr::Rmw(UnOp::Ror, Mode::Abs),
        0x6Du8 => Instr::Push(StackReg::Y),
        0x6Eu8 => Instr::DbnzD,
        0x6Fu8 => Instr::Ret,
        0x70u8 => Instr::BranchIf(Cond::V, true),
        0x71u8 => Instr::Tcall(7),
        0x72u8 => Instr::SetBit(3, false),
        0x73u8 => Instr::BitBranch(3, false),
        0x74u8 => Instr::Compare(R::A, Mode::Dx),
        0x75u8 => Instr::Compare(R::A, Mode::AbsX),
        0x76u8 => Instr::Compare(R::A, Mode::AbsY),
        0x77u8 => Instr::Compare(R::A, Mode::Idy),
        0x78u8 => Instr::CompareMem(Mode::D, Mode::Imm),
        0x79u8 => Instr::CompareMem(Mode::Ix, Mode::Iy),
        0x7Au8 => Instr::Word(WordOp::Addw),
        0x7Bu8 => Instr::Rmw(UnOp::Ror, Mode::Dx),
        0x7Cu8 => Instr::RegUn(UnOp::Ror, R::A),
        0x7Du8 => Instr::Transfer(R::A, R::X),
        0x7Eu8 => Instr::Compare(R::Y, Mode::D),
        0x7Fu8 => Instr::Reti,
        0x80u8 => Instr::Flag(FlagOp::Setc),
        0x81u8 => Instr::Tcall(8),
        0x82u8 => Instr::SetBit(4, true),
        0x83u8 => Instr::BitBranch(4, true),
        0x84u8 => Instr::ReadA(BinOp::Adc, Mode::D),
        0x85u8 => Instr::ReadA(BinOp::Adc, Mode::Abs),
        0x86u8 => Instr::ReadA(BinOp::Adc, Mode::Ix),
        0x87u8 => Instr::ReadA(BinOp::Adc, Mode::Idx),
        0x88u8 => Instr::ReadA(BinOp::Adc, Mode::Imm),
        0x89u8 => Instr::MemBin(BinOp::Adc, Mode::D, Mode::D),
        0x8Au8 => Instr::Bit(BitOp::Eor1),
        0x8Bu8 => Instr::Rmw(UnOp::Dec, Mode::D),
        0x8Cu8 => Instr::Rmw(UnOp::Dec, Mode::Abs),
        0x8Du8 => Instr::Load(R::Y, Mode::Imm),
        0x8Eu8 => Instr::Pop(StackReg::Psw),
        0x8Fu8 => Instr::MovMem(Mode::Imm, Mode::D),
        0x90u8 => Instr::BranchIf(Cond::C, false),
        0x91u8 => Instr::Tcall(9),
        0x92u8 => Instr::SetBit(4, false),
        0x93u8 => Instr::BitBranch(4, false),
        0x94u8 => Instr::ReadA(BinOp::Adc, Mode::Dx),
        0x95u8 => Instr::ReadA(BinOp::Adc, Mode::AbsX),
        0x96u8 => Instr::ReadA(BinOp::Adc, Mode::AbsY),
        0x97u8 => Instr::ReadA(BinOp::Adc, Mode::Idy),
        0x98u8 => Instr::MemBin(BinOp::Adc, Mode::D, Mode::Imm),
        0x99u8 => Instr::MemBin(BinOp::Adc, Mode::Ix, Mode::Iy),
        0x9Au8 => Instr::Word(WordOp::Subw),
        0x9Bu8 => Instr::Rmw(UnOp::Dec, Mode::Dx),
        0x9Cu8 => Instr::RegUn(UnOp::Dec, R::A),
        0x9Du8 => Instr::Transfer(R::X, R::Sp),
        0x9Eu8 => Instr::Div,
        0x9Fu8 => Instr::Xcn,
        0xA0u8 => Instr::Flag(FlagOp::Ei),
        0xA1u8 => Instr::Tcall(10),
        0xA2u8 => Instr::SetBit(5, true),
        0xA3u8 => Instr::BitBranch(5, true),
        0xA4u8 => Instr::ReadA(BinOp::Sbc, Mode::D),
        0xA5u8 => Instr::ReadA(BinOp::Sbc, Mode::Abs),
        0xA6u8 => Instr::ReadA(BinOp::Sbc, Mode::Ix),
        0xA7u8 => Instr::ReadA(BinOp::Sbc, Mode::Idx),
        0xA8u8 => Instr::ReadA(BinOp::Sbc, Mode::Imm),
        0xA9u8 => Instr::MemBin(BinOp::Sbc, Mode::D, Mode::D),
        0xAAu8 => Instr::Bit(BitOp::Mov1ToC),
        0xABu8 => Instr::Rmw(UnOp::Inc, Mode::D),
        0xACu8 => Instr::Rmw(UnOp::Inc, Mode::Abs),
        0xADu8 => Instr::Compare(R::Y, Mode::Imm),
        0xAEu8 => Instr::Pop(StackReg::A),
        0xAFu8 => Instr::MovXincA,
        0xB0u8 => Instr::BranchIf(Cond::C, true),
        0xB1u8 => Instr::Tcall(11),
        0xB2u8 => Instr::SetBit(5, false),
        0xB3u8 => Instr::BitBranch(5, false),
        0xB4u8 => Instr::ReadA(BinOp::Sbc, Mode::Dx),
        0xB5u8 => Instr::ReadA(BinOp::Sbc, Mode::AbsX),
        0xB6u8 => Instr::ReadA(BinOp::Sbc, Mode::AbsY),
        0xB7u8 => Instr::ReadA(BinOp::Sbc, Mode::Idy),
        0xB8u8 => Instr::MemBin(BinOp::Sbc, Mode::D, Mode::Imm),
        0xB9u8 => Instr::MemBin(BinOp::Sbc, Mode::Ix, Mode::Iy),
        0xBAu8 => Instr::Word(WordOp::Load),
        0xBBu8 => Instr::Rmw(UnOp::Inc, Mode::Dx),
        0xBCu8 => Instr::RegUn(UnOp::Inc, R::A),
        0xBDu8 => Instr::MovSpX,
        0xBEu8 => Instr::Das,
        0xBFu8 => Instr::MovAXinc,
        0xC0u8 => Instr::Flag(FlagOp::Di),
        0xC1u8 => Instr::Tcall(12),
        0xC2u8 => Instr::SetBit(6, true),
        0xC3u8 => Instr::BitBranch(6, true),
        0xC4u8 => Instr::Store(R::A, Mode::D),
        0xC5u8 => Instr::Store(R::A, Mode::Abs),
        0xC6u8 => Instr::Store(R::A, Mode::Ix),
        0xC7u8 => Instr::Store(R::A, Mode::Idx),
        0xC8u8 => Instr::Compare(R::X, Mode::Imm),
        0xC9u8 => Instr::Store(R::X, Mode::Abs),
        0xCAu8 => Instr::Bit(BitOp::Mov1FromC),
        0xCBu8 => Instr::Store(R::Y, Mode::D),
        0xCCu8 => Instr::Store(R::Y, Mode::Abs),
        0xCDu8 => Instr::Load(R::X, Mode::Imm),
        0xCEu8 => Instr::Pop(StackReg::X),
        0xCFu8 => Instr::Mul,
        0xD0u8 => Instr::BranchIf(Cond::Z, false),
        0xD1u8 => Instr::Tcall(13),
        0xD2u8 => Instr::SetBit(6, false),
        0xD3u8 => Instr::BitBranch(6, false),
        0xD4u8 => Instr::Store(R::A, Mode::Dx),
        0xD5u8 => Instr::Store(R::A, Mode::AbsX),
        0xD6u8 => Instr::Store(R::A, Mode::AbsY),
        0xD7u8 => Instr::Store(R::A, Mode::Idy),
        0xD8u8 => Instr::Store(R::X, Mode::D),
        0xD9u8 => Instr::Store(R::X, Mode::Dy),
        0xDAu8 => Instr::Word(WordOp::Store),
        0xDBu8 => Instr::Store(R::Y, Mode::Dx),
        0xDCu8 => Instr::RegUn(UnOp::Dec, R::Y),
        0xDDu8 => Instr::Transfer(R::A, R::Y),
        0xDEu8 => Instr::Cbne(Mode::Dx),
        0xDFu8 => Instr::Daa,
        0xE0u8 => Instr::Flag(FlagOp::Clrv),
        0xE1u8 => Instr::Tcall(14),
        0xE2u8 => Instr::SetBit(7, true),
        0xE3u8 => Instr::BitBranch(7, true),
        0xE4u8 => Instr::Load(R::A, Mode::D),
        0xE5u8 => Instr::Load(R::A, Mode::Abs),
        0xE6u8 => Instr::Load(R::A, Mode::Ix),
        0xE7u8 => Instr::Load(R::A, Mode::Idx),
        0xE8u8 => Instr::Load(R::A, Mode::Imm),
        0xE9u8 => Instr::Load(R::X, Mode::Abs),
        0xEAu8 => Instr::Bit(BitOp::Not1),
        0xEBu8 => Instr::Load(R::Y, Mode::D),
        0xECu8 => Instr::Load(R::Y, Mode::Abs),
        0xEDu8 => Instr::Flag(FlagOp::Notc),
        0xEEu8 => Instr::Pop(StackReg::Y),
        0xEFu8 => Instr::Unknown,
        0xF0u8 => Instr::BranchIf(Cond::Z, true),
        0xF1u8 => Instr::Tcall(15),
        0xF2u8 => Instr::SetBit(7, false),
        0xF3u8 => Instr::BitBranch(7, false),
        0xF4u8 => Instr::Load(R::A, Mode::Dx),
        0xF5u8 => Instr::Load(R::A, Mode::AbsX),
        0xF6u8 => Instr::Load(R::A, Mode::AbsY),
        0xF7u8 => Instr::Load(R::A, Mode::Idy),
        0xF8u8 => Instr::Load(R::X, Mode::D),
        0xF9u8 => Instr::Load(R::X, Mode::Dy),
        0xFAu8 => Instr::MovMem(Mode::D, Mode::D),
        0xFBu8 => Instr::Load(R::Y, Mode::Dx),
        0xFCu8 => Instr::RegUn(UnOp::Inc, R::Y),
        0xFDu8 => Instr::Transfer(R::Y, R::A),
        0xFEu8 => Instr::DbnzY,
        _ => Instr::Unknown,
    }
}

/// Decode an opcode.
#[verifier::rlimit(100)]
pub fn decode_opcode(opcode: u8) -> (r: Instr)
    ensures
        r == decode(opcode),
        r.valid(),
{
    reveal(decode);
    match opcode {
        0x00 => Instr::Nop,
        0x01 => Instr::Tcall(0),
        0x02 => Instr::SetBit(0, true),
        0x03 => Instr::BitBranch(0, true),
        0x04 => Instr::ReadA(BinOp::Or, Mode::D),
        0x05 => Instr::ReadA(BinOp::Or, Mode::Abs),
        0x06 => Instr::ReadA(BinOp::Or, Mode::Ix),
        0x07 => Instr::ReadA(BinOp::Or, Mode::Idx),
        0x08 => Instr::ReadA(BinOp::Or, Mode::Imm),
        0x09 => Instr::MemBin(BinOp::Or, Mode::D, Mode::D),
        0x0A => Instr::Bit(BitOp::Or1),
        0x0B => Instr::Rmw(UnOp::Asl, Mode::D),
        0x0C => Instr::Rmw(UnOp::Asl, Mode::Abs),
        0x0D => Instr::Push(StackReg::Psw),
        0x0E => Instr::Rmw(UnOp::Tset, Mode::Abs),
        0x0F => Instr::Brk,
        0x10 => Instr::BranchIf(Cond::N, false),
        0x11 => Instr::Tcall(1),
        0x12 => Instr::SetBit(0, false),
        0x13 => Instr::BitBranch(0, false),
        0x14 => Instr::ReadA(BinOp::Or, Mode::Dx),
        0x15 => Instr::ReadA(BinOp::Or, Mode::AbsX),
        0x16 => Instr::ReadA(BinOp::Or, Mode::AbsY),
        0x17 => Instr::ReadA(BinOp::Or, Mode::Idy),
        0x18 => Instr::MemBin(BinOp::Or, Mode::D, Mode::Imm),
        0x19 => Instr::MemBin(BinOp::Or, Mode::Ix, Mode::Iy),
        0x1A => Instr::Word(WordOp::Decw),
        0x1B => Instr::Rmw(UnOp::Asl, Mode::Dx),
        0x1C => Instr::RegUn(UnOp::Asl, R::A),
        0x1D => Instr::RegUn(UnOp::Dec, R::X),
        0x1E => Instr::Compare(R::X, Mode::Abs),
        0x1F => Instr::JmpIax,
        0x20 => Instr::Flag(FlagOp::Clrp),
        0x21 => Instr::Tcall(2),
        0x22 => Instr::SetBit(1, true),
        0x23 => Instr::BitBranch(1, true),
        0x24 => Instr::ReadA(BinOp::And, Mode::D),
        0x25 => Instr::ReadA(BinOp::And, Mode::Abs),
        0x26 => Instr::ReadA(BinOp::And, Mode::Ix),
        0x27 => Instr::ReadA(BinOp::And, Mode::Idx),
        0x28 => Instr::ReadA(BinOp::And, Mode::Imm),
        0x29 => Instr::MemBin(BinOp::And, Mode::D, Mode::D),
        0x2A => Instr::Bit(BitOp::Or1Not),
        0x2B => Instr::Rmw(UnOp::Rol, Mode::D),
        0x2C => Instr::Rmw(UnOp::Rol, Mode::Abs),
        0x2D => Instr::Push(StackReg::A),
        0x2E => Instr::Cbne(Mode::D),
        0x2F => Instr::Bra,
        0x30 => Instr::BranchIf(Cond::N, true),
        0x31 => Instr::Tcall(3),
        0x32 => Instr::SetBit(1, false),
        0x33 => Instr::BitBranch(1, false),
        0x34 => Instr::ReadA(BinOp::And, Mode::Dx),
        0x35 => Instr::ReadA(BinOp::And, Mode::AbsX),
        0x36 => Instr::ReadA(BinOp::And, Mode::AbsY),
        0x37 => Instr::ReadA(BinOp::And, Mode::Idy),
        0x38 => Instr::MemBin(BinOp::And, Mode::D, Mode::Imm),
        0x39 => Instr::MemBin(BinOp::And, Mode::Ix, Mode::Iy),
        0x3A => Instr::Word(WordOp::Incw),
        0x3B => Instr::Rmw(UnOp::Rol, Mode::Dx),
        0x3C => Instr::RegUn(UnOp::Rol, R::A),
        0x3D => Instr::RegUn(UnOp::Inc, R::X),
        0x3E => Instr::Compare(R::X, Mode::D),
        0x3F => Instr::Call,
        0x40 => Instr::Flag(FlagOp::Setp),
        0x41 => Instr::Tcall(4),
        0x42 => Instr::SetBit(2, true),
        0x43 => Instr::BitBranch(2, true),
        0x44 => Instr::ReadA(BinOp::Eor, Mode::D),
        0x45 => Instr::ReadA(BinOp::Eor, Mode::Abs),
        0x46 => Instr::ReadA(BinOp::Eor, Mode::Ix),
        0x47 => Instr::ReadA(BinOp::Eor, Mode::Idx),
        0x48 => Instr::ReadA(BinOp::Eor, Mode::Imm),
        0x49 => Instr::MemBin(BinOp::Eor, Mode::D, Mode::D),
        0x4A => Instr::Bit(BitOp::And1),
        0x4B => Instr::Rmw(UnOp::Lsr, Mode::D),
        0x4C => Instr::Rmw(UnOp::Lsr, Mode::Abs),
        0x4D => Instr::Push(StackReg::X),
        0x4E => Instr::Rmw(UnOp::Tclr, Mode::Abs),
        0x4F => Instr::Pcall,
        0x50 => Instr::BranchIf(Cond::V, false),
        0x51 => Instr::Tcall(5),
        0x52 => Instr::SetBit(2, false),
        0x53 => Instr::BitBranch(2, false),
        0x54 => Instr::ReadA(BinOp::Eor, Mode::Dx),
        0x55 => Instr::ReadA(BinOp::Eor, Mode::AbsX),
        0x56 => Instr::ReadA(BinOp::Eor, Mode::AbsY),
        0x57 => Instr::ReadA(BinOp::Eor, Mode::Idy),
        0x58 => Instr::MemBin(BinOp::Eor, Mode::D, Mode::Imm),
        0x59 => Instr::MemBin(BinOp::Eor, Mode::Ix, Mode::Iy),
        0x5A => Instr::Word(WordOp::Cmpw),
        0x5B => Instr::Rmw(UnOp::Lsr, Mode::Dx),
        0x5C => Instr::RegUn(UnOp::Lsr, R::A),
        0x5D => Instr::Transfer(R::X, R::A),
        0x5E => Instr::Compare(R::Y, Mode::Abs),
        0x5F => Instr::JmpAbs,
        0x60 => Instr::Flag(FlagOp::Clrc),
        0x61 => Instr::Tcall(6),
        0x62 => Instr::SetBit(3, true),
        0x63 => Instr::BitBranch(3, true),
        0x64 => Instr::Compare(R::A, Mode::D),
        0x65 => Instr::Compare(R::A, Mode::Abs),
        0x66 => Instr::Compare(R::A, Mode::Ix),
        0x67 => Instr::Compare(R::A, Mode::Idx),
        0x68 => Instr::Compare(R::A, Mode::Imm),
        0x69 => Instr::CompareMem(Mode::D, Mode::D),
        0x6A => Instr::Bit(BitOp::And1Not),
        0x6B => Instr::Rmw(UnOp::Ror, Mode::D),
        0x6C => Instr::Rmw(UnOp::Ror, Mode::Abs),
        0x6D => Instr::Push(StackReg::Y),
        0x6E => Instr::DbnzD,
        0x6F => Instr::Ret,
        0x70 => Instr::BranchIf(Cond::V, true),
        0x71 => Instr::Tcall(7),
        0x72 => Instr::SetBit(3, false),
        0x73 => Instr::BitBranch(3, false),
        0x74 => Instr::Compare(R::A, Mode::Dx),
        0x75 => Instr::Compare(R::A, Mode::AbsX),
        0x76 => Instr::Compare(R::A, Mode::AbsY),
        0x77 => Instr::Compare(R::A, Mode::Idy),
        0x78 => Instr::CompareMem(Mode::D, Mode::Imm),
        0x79 => Instr::CompareMem(Mode::Ix, Mode::Iy),
        0x7A => Instr::Word(WordOp::Addw),
        0x7B => Instr::Rmw(UnOp::Ror, Mode::Dx),
        0x7C => Instr::RegUn(UnOp::Ror, R::A),
        0x7D => Instr::Transfer(R::A, R::X),
        0x7E => Instr::Compare(R::Y, Mode::D),
        0x7F => Instr::Reti,
        0x80 => Instr::Flag(FlagOp::Setc),
        0x81 => Instr::Tcall(8),
        0x82 => Instr::SetBit(4, true),
        0x83 => Instr::BitBranch(4, true),
        0x84 => Instr::ReadA(BinOp::Adc, Mode::D),
        0x85 => Instr::ReadA(BinOp::Adc, Mode::Abs),
        0x86 => Instr::ReadA(BinOp::Adc, Mode::Ix),
        0x87 => Instr::ReadA(BinOp::Adc, Mode::Idx),
        0x88 => Instr::ReadA(BinOp::Adc, Mode::Imm),
        0x89 => Instr::MemBin(BinOp::Adc, Mode::D, Mode::D),
        0x8A => Instr::Bit(BitOp::Eor1),
        0x8B => Instr::Rmw(UnOp::Dec, Mode::D),
        0x8C => Instr::Rmw(UnOp::Dec, Mode::Abs),
        0x8D => Instr::Load(R::Y, Mode::Imm),
        0x8E => Instr::Pop(StackReg::Psw),
        0x8F => Instr::MovMem(Mode::Imm, Mode::D),
        0x90 => Instr::BranchIf(Cond::C, false),
        0x91 => Instr::Tcall(9),
        0x92 => Instr::SetBit(4, false),
        0x93 => Instr::BitBranch(4, false),
        0x94 => Instr::ReadA(BinOp::Adc, Mode::Dx),
        0x95 => Instr::ReadA(BinOp::Adc, Mode::AbsX),
        0x96 => Instr::ReadA(BinOp::Adc, Mode::AbsY),
        0x97 => Instr::ReadA(BinOp::Adc, Mode::Idy),
        0x98 => Instr::MemBin(BinOp::Adc, Mode::D, Mode::Imm),
        0x99 => Instr::MemBin(BinOp::Adc, Mode::Ix, Mode::Iy),
        0x9A => Instr::Word(WordOp::Subw),
        0x9B => Instr::Rmw(UnOp::Dec, Mode::Dx),
        0x9C => Instr::RegUn(UnOp::Dec, R::A),
        0x9D => Instr::Transfer(R::X, R::Sp),
        0x9E => Instr::Div,
        0x9F => Instr::Xcn,
        0xA0 => Instr::Flag(FlagOp::Ei),
        0xA1 => Instr::Tcall(10),
        0xA2 => Instr::SetBit(5, true),
        0xA3 => Instr::BitBranch(5, true),
        0xA4 => Instr::ReadA(BinOp::Sbc, Mode::D),
        0xA5 => Instr::ReadA(BinOp::Sbc, Mode::Abs),
        0xA6 => Instr::ReadA(BinOp::Sbc, Mode::Ix),
        0xA7 => Instr::ReadA(BinOp::Sbc, Mode::Idx),
        0xA8 => Instr::ReadA(BinOp::Sbc, Mode::Imm),
        0xA9 => Instr::MemBin(BinOp::Sbc, Mode::D, Mode::D),
        0xAA => Instr::Bit(BitOp::Mov1ToC),
        0xAB => Instr::Rmw(UnOp::Inc, Mode::D),
        0xAC => Instr::Rmw(UnOp::Inc, Mode::Abs),
        0xAD => Instr::Compare(R::Y, Mode::Imm),
        0xAE => Instr::Pop(StackReg::A),
        0xAF => Instr::MovXincA,
        0xB0 => Instr::BranchIf(Cond::C, true),
        0xB1 => Instr::Tcall(11),
        0xB2 => Instr::SetBit(5, false),
        0xB3 => Instr::BitBranch(5, false),
        0xB4 => Instr::ReadA(BinOp::Sbc, Mode::Dx),
        0xB5 => Instr::ReadA(BinOp::Sbc, Mode::AbsX),
        0xB6 => Instr::ReadA(BinOp::Sbc, Mode::AbsY),
        0xB7 => Instr::ReadA(BinOp::Sbc, Mode::Idy),
        0xB8 => Instr::MemBin(BinOp::Sbc, Mode::D, Mode::Imm),
        0xB9 => Instr::MemBin(BinOp::Sbc, Mode::Ix, Mode::Iy),
        0xBA => Instr::Word(WordOp::Load),
        0xBB => Instr::Rmw(UnOp::Inc, Mode::Dx),
        0xBC => Instr::RegUn(UnOp::Inc, R::A),
        0xBD => Instr::MovSpX,
        0xBE => Instr::Das,
        0xBF => Instr::MovAXinc,
        0xC0 => Instr::Flag(FlagOp::Di),
        0xC1 => Instr::Tcall(12),
        0xC2 => Instr::SetBit(6, true),
        0xC3 => Instr::BitBranch(6, true),
        0xC4 => Instr::Store(R::A, Mode::D),
        0xC5 => Instr::Store(R::A, Mode::Abs),
        0xC6 => Instr::Store(R::A, Mode::Ix),
        0xC7 => Instr::Store(R::A, Mode::Idx),
        0xC8 => Instr::Compare(R::X, Mode::Imm),
        0xC9 => Instr::Store(R::X, Mode::Abs),
        0xCA => Instr::Bit(BitOp::Mov1FromC),
        0xCB => Instr::Store(R::Y, Mode::D),
        0xCC => Instr::Store(R::Y, Mode::Abs),
        0xCD => Instr::Load(R::X, Mode::Imm),
        0xCE => Instr::Pop(StackReg::X),
        0xCF => Instr::Mul,
        0xD0 => Instr::BranchIf(Cond::Z, false),
        0xD1 => Instr::Tcall(13),
        0xD2 => Instr::SetBit(6, false),
        0xD3 => Instr::BitBranch(6, false),
        0xD4 => Instr::Store(R::A, Mode::Dx),
        0xD5 => Instr::Store(R::A, Mode::AbsX),
        0xD6 => Instr::Store(R::A, Mode::AbsY),
        0xD7 => Instr::Store(R::A, Mode::Idy),
        0xD8 => Instr::Store(R::X, Mode::D),
        0xD9 => Instr::Store(R::X, Mode::Dy),
        0xDA => Instr::Word(WordOp::Store),
        0xDB => Instr::Store(R::Y, Mode::Dx),
        0xDC => Instr::RegUn(UnOp::Dec, R::Y),
        0xDD => Instr::Transfer(R::A, R::Y),
        0xDE => Instr::Cbne(Mode::Dx),
        0xDF => Instr::Daa,
        0xE0 => Instr::Flag(FlagOp::Clrv),
        0xE1 => Instr::Tcall(14),
        0xE2 => Instr::SetBit(7, true),
        0xE3 => Instr::BitBranch(7, true),
        0xE4 => Instr::Load(R::A, Mode::D),
        0xE5 => Instr::Load(R::A, Mode::Abs),
        0xE6 => Instr::Load(R::A, Mode::Ix),
        0xE7 => Instr::Load(R::A, Mode::Idx),
        0xE8 => Instr::Load(R::A, Mode::Imm),
        0xE9 => Instr::Load(R::X, Mode::Abs),
        0xEA => Instr::Bit(BitOp::Not1),
        0xEB => Instr::Load(R::Y, Mode::D),
        0xEC => Instr::Load(R::Y, Mode::Abs),
        0xED => Instr::Flag(FlagOp::Notc),
        0xEE => Instr::Pop(StackReg::Y),
        0xEF => Instr::Unknown,
        0xF0 => Instr::BranchIf(Cond::Z, true),
        0xF1 => Instr::Tcall(15),
        0xF2 => Instr::SetBit(7, false),
        0xF3 => Instr::BitBranch(7, false),
        0xF4 => Instr::Load(R::A, Mode::Dx),
        0xF5 => Instr::Load(R::A, Mode::AbsX),
        0xF6 => Instr::Load(R::A, Mode::AbsY),
        0xF7 => Instr::Load(R::A, Mode::Idy),
        0xF8 => Instr::Load(R::X, Mode::D),
        0xF9 => Instr::Load(R::X, Mode::Dy),
        0xFA => Instr::MovMem(Mode::D, Mode::D),
        0xFB => Instr::Load(R::Y, Mode::Dx),
        0xFC => Instr::RegUn(UnOp::Inc, R::Y),
        0xFD => Instr::Transfer(R::Y, R::A),
        0xFE => Instr::DbnzY,
        _ => Instr::Unknown,
    }
}

impl Processor {
    /// Whether a branch condition holds.
    pub open spec fn cond_holds(self, c: Cond, value: bool) -> bool {
        (match c {
            Cond::C => self.psw.c,
            Cond::Z => self.psw.z,
            Cond::N => self.psw.n,
            Cond::V => self.psw.v,
        }) == value
    }

    /// The outcome of executing a decoded instruction (the opcode already fetched):
    /// the registers afterwards and the bus cycles, whose read values are taken from
    /// the log `ev` from index `n` on.
    #[verifier::opaque]
    pub open spec fn instr_spec(self, ins: Instr, ev: Seq<BusEvent>, n: int) -> Outcome {
        match ins {
            Instr::ReadA(op, m) => self.read_a_spec(op, m, ev, n),
            Instr::Compare(r, m) => self.compare_reg_spec(r, m, ev, n),
            Instr::Load(r, m) => self.load_spec(r, m, ev, n),
            Instr::Store(r, m) => self.store_spec(r, m, ev, n),
            Instr::MemBin(op, target, source) => self.mem_bin_spec(op, target, source, ev, n),
            Instr::CompareMem(lhs, rhs) => self.compare_mem_spec(lhs, rhs, ev, n),
            Instr::Rmw(op, m) => self.rmw_spec(op, m, ev, n),
            Instr::RegUn(op, r) => Outcome { after: self.reg_un_spec(op, r), events: seq![] },
            Instr::BranchIf(c, value) => self.branch_if_spec(self.cond_holds(c, value), ev, n),
            Instr::Bra => self.branch_if_spec(true, ev, n),
            Instr::BitBranch(bit, set) => self.bit_branch_spec(bit, set, ev, n),
            Instr::Cbne(m) => self.cbne_spec(m, ev, n),
            Instr::DbnzY => self.dbnz_y_spec(ev, n),
            Instr::DbnzD => self.dbnz_d_spec(ev, n),
            Instr::Flag(f) => Outcome { after: Processor { psw: self.flag_spec(f), ..self }, events: seq![] },
            Instr::Transfer(d, s) => Outcome {
                after: Processor { psw: nz(self.psw, self.reg(s)), ..self.with_reg(d, self.reg(s)) },
                events: seq![],
            },
            Instr::MovSpX => Outcome { after: Processor { sp: self.x, ..self }, events: seq![] },
            Instr::MovAXinc => {
                let o = self.load_spec(R::A, Mode::Ix, ev, n);
                Outcome { after: Processor { x: w8(o.after.x + 1), ..o.after }, events: o.events }
            },
            Instr::MovXincA => {
                let o = self.store_spec(R::A, Mode::Ix, ev, n);
                Outcome { after: Processor { x: w8(o.after.x + 1), ..o.after }, events: o.events }
            },
            Instr::MovMem(source, dest) => self.mov_mem_spec(source, dest, ev, n),
            Instr::Bit(op) => self.bit_op_spec(op, ev, n),
            Instr::SetBit(bit, value) => self.set_bit_spec(bit, value, ev, n),
            Instr::Word(op) => self.word_op_spec(op, ev, n),
            Instr::Daa => Outcome { after: self.daa_spec(), events: seq![] },
            Instr::Das => Outcome { after: self.das_spec(), events: seq![] },
            Instr::Div => Outcome { after: self.div_spec(), events: io_cycles(11) },
            Instr::Mul => Outcome { after: self.mul_spec(), events: seq![] },
            Instr::Xcn => Outcome { after: self.xcn_spec(), events: seq![] },
            Instr::Push(r) => Outcome {
                after: Processor { sp: w8(self.sp - 1), ..self },
                events: seq![wr(self.stack_addr(), self.stack_value(r))],
            },
            Instr::Pop(r) => self.pop_spec(r, ev, n),
            Instr::Ret => self.ret_spec(ev, n),
            Instr::Reti => self.reti_spec(ev, n),
            Instr::Call => self.call_abs_spec(ev, n),
            Instr::Pcall => self.pcall_spec(ev, n),
            Instr::Tcall(k) => self.tcall_spec(k, ev, n),
            Instr::Brk => self.brk_spec(ev, n + 3),
            Instr::JmpAbs => Outcome { after: Processor { pc: word_at(ev, n), ..self }, events: rd16(self.pc as int, ev, n) },
            Instr::JmpIax => self.jmp_iax_spec(ev, n),
            Instr::Nop => Outcome { after: self, events: seq![] },
            Instr::Unknown => Outcome { after: self, events: seq![] },
        }
    }

    /// Instructions on memory operands and branches.
    #[verifier::rlimit(100)]
    #[verifier::spinoff_prover]
    fn execute_operand<M: HasAddressBus>(&mut self, ins: Instr, bus: &mut M)
        requires
            ins.valid(),
            ins is ReadA || ins is Compare || ins is Load || ins is Store || ins is MemBin || ins is CompareMem
                || ins is Rmw || ins is BranchIf || ins is Bra || ins is BitBranch || ins is Cbne || ins is DbnzY
                || ins is DbnzD || ins is MovAXinc || ins is MovXincA || ins is MovMem,
        ensures
            ({
                let o = old(self).instr_spec(ins, final(bus).bus_events(), old(bus).bus_events().len() as int);
                &&& *final(self) == o.after
                &&& final(bus).bus_events() == old(bus).bus_events() + o.events
            }),
    {
        reveal(Processor::instr_spec);
        match ins {
            Instr::ReadA(op, m) => self.read_a(op, m, bus),
            Instr::Compare(r, m) => self.compare_reg(r, m, bus),
            Instr::Load(r, m) => self.load(r, m, bus),
            Instr::Store(r, m) => self.store(r, m, bus),
            Instr::MemBin(op, target, source) => self.mem_bin(op, target, source, bus),
            Instr::CompareMem(lhs, rhs) => self.compare_mem(lhs, rhs, bus),
            Instr::Rmw(op, m) => self.rmw(op, m, bus),
            Instr::BranchIf(c, value) => {
                let f = match c {
                    Cond::C => self.psw.c,
                    Cond::Z => self.psw.z,
                    Cond::N => self.psw.n,
                    Cond::V => self.psw.v,
                };
                self.read_and_branch_if(f == value, bus);
            },
            Instr::Bra => self.branch_imm(bus),
            Instr::BitBranch(bit, set) => self.bit_branch(bit, set, bus),
            Instr::Cbne(m) => self.cbne(m, bus),
            Instr::DbnzY => self.dbnz_y(bus),
            Instr::DbnzD => self.dbnz_d(bus),
            Instr::MovAXinc => {
                self.load(R::A, Mode::Ix, bus);
                self.x = self.x.wrapping_add(1);
            },
            Instr::MovXincA => {
                self.store(R::A, Mode::Ix, bus);
                self.x = self.x.wrapping_add(1);
            },
            _ => self.mov_mem_of(ins, bus),
        }
    }

    fn mov_mem_of<M: HasAddressBus>(&mut self, ins: Instr, bus: &mut M)
        requires
            ins is MovMem,
        ensures
            ({
                let o = old(self).instr_spec(ins, final(bus).bus_events(), old(bus).bus_events().len() as int);
                &&& *final(self) == o.after
                &&& final(bus).bus_events() == old(bus).bus_events() + o.events
            }),
    {
        reveal(Processor::instr_spec);
        match ins {
            Instr::MovMem(source, dest) => self.mov_mem(source, dest, bus),
            _ => {},
        }
    }

    /// Instructions on registers, flags and the stack.
    #[verifier::rlimit(100)]
    #[verifier::spinoff_prover]
    fn execute_other<M: HasAddressBus>(&mut self, ins: Instr, bus: &mut M)
        requires
            ins.valid(),
            !(ins is ReadA || ins is Compare || ins is Load || ins is Store || ins is MemBin || ins is CompareMem
                || ins is Rmw || ins is BranchIf || ins is Bra || ins is BitBranch || ins is Cbne || ins is DbnzY
                || ins is DbnzD || ins is MovAXinc || ins is MovXincA || ins is MovMem),
        ensures
            ({
                let o = old(self).instr_spec(ins, final(bus).bus_events(), old(bus).bus_events().len() as int);
                &&& *final(self) == o.after
                &&& final(bus).bus_events() == old(bus).bus_events() + o.events
            }),
    {
        reveal(Processor::instr_spec);
        let ghost ev0 = bus.bus_events();
        match ins {
            Instr::RegUn(op, r) => self.reg_un(op, r),
            Instr::Flag(f) => self.flag_op(f),
            Instr::Transfer(d, s) => self.transfer(d, s),
            Instr::MovSpX => self.sp = self.x,
            Instr::Bit(op) => self.bit_op(op, bus),
            Instr::SetBit(bit, value) => self.set_bit(bit, value, bus),
            Instr::Word(op) => self.word_op(op, bus),
            Instr::Daa => self.daa(),
            Instr::Das => self.das(),
            Instr::Div => self.div(bus),
            Instr::Mul => self.mul(),
            Instr::Xcn => self.xcn(),
            Instr::Push(r) => {
                self.push(r, bus);
                assert(bus.bus_events() =~= ev0 + seq![wr(old(self).stack_addr(), old(self).stack_value(r))]);
            },
            Instr::Pop(r) => self.pop(r, bus),
            Instr::Ret => self.ret(bus),
            Instr::Reti => self.reti(bus),
            Instr::Call => self.call_abs(bus),
            Instr::Pcall => self.pcall(bus),
            Instr::Tcall(k) => self.tcall(k, bus),
            Instr::Brk => self.brk(bus),
            Instr::JmpAbs => {
                let addr = self.address(Mode::Abs, bus);
                proof {
                    reveal(Processor::mode_spec);
                }
                self.pc = addr as u16;
            },
            Instr::JmpIax => self.jmp_iax(bus),
            _ => {},
        }
        proof {
            let ev = bus.bus_events();
            assert(ev =~= ev0 + old(self).instr_spec(ins, ev, ev0.len() as int).events);
        }
    }

    /// Execute a decoded instruction.
    pub fn execute<M: HasAddressBus>(&mut self, ins: Instr, bus: &mut M)
        requires
            ins.valid(),
        ensures
            ({
                let o = old(self).instr_spec(ins, final(bus).bus_events(), old(bus).bus_events().len() as int);
                &&& *final(self) == o.after
                &&& final(bus).bus_events() == old(bus).bus_events() + o.events
            }),
    {
        match ins {
            Instr::ReadA(..) | Instr::Compare(..) | Instr::Load(..) | Instr::Store(..) | Instr::MemBin(..)
            | Instr::CompareMem(..) | Instr::Rmw(..) | Instr::BranchIf(..) | Instr::Bra | Instr::BitBranch(..)
            | Instr::Cbne(..) | Instr::DbnzY | Instr::DbnzD | Instr::MovAXinc | Instr::MovXincA | Instr::MovMem(..) => {
                self.execute_operand(ins, bus)
            },
            _ => self.execute_other(ins, bus),
        }
    }

    /// Fetch the instruction at the program counter, decode it and execute it.
    ///
    /// The first bus cycle reads the opcode; the registers afterwards and the remaining
    /// cycles are those of [`Processor::instr_spec`] for the decoded instruction, run
    /// with the program counter moved past the opcode. An opcode that is not
    /// implemented (SLEEP or STOP) is returned as the error, after its fetch.
    pub fn step<M: HasAddressBus>(&mut self, bus: &mut M) -> (r: Result<(), u8>)
        ensures
            ({
                let ev = final(bus).bus_events();
                let n = old(bus).bus_events().len() as int;
                let opcode = value_at(ev, n);
                let o = (Processor { pc: old(self).pc_plus(1), ..*old(self) }).instr_spec(decode(opcode), ev, n + 1);
                &&& (r is Err <==> decode(opcode) is Unknown)
                &&& (r is Err ==> r == Err::<(), u8>(opcode))
                &&& *final(self) == o.after
                &&& ev == old(bus).bus_events() + seq![rd(old(self).pc as int, ev, n)] + o.events
            }),
    {
        // Read opcode
        let opcode = bus.read(self.pc as usize);
        let ghost mid = bus.bus_events();
        self.pc = self.pc.wrapping_add(1);
        let ins = decode_opcode(opcode);
        let r = match ins {
            Instr::Unknown => Err(opcode),
            _ => Ok(()),
        };
        self.execute(ins, bus);
        proof {
            let ev = bus.bus_events();
            let n = old(bus).bus_events().len() as int;
            assert(ev.subrange(0, mid.len() as int) =~= mid);
            assert(value_at(ev, n) == opcode);
            assert(ev =~= old(bus).bus_events() + seq![rd(old(self).pc as int, ev, n)] + (Processor {
                pc: old(self).pc_plus(1),
                ..*old(self)
            }).instr_spec(decode(value_at(ev, n)), ev, n + 1).events);
        }
        r
    }
}

/// The flag tested by the conditional branch opcodes 0x10, 0x30, ..., 0xF0: N, V, C
/// and Z in turn, each first branching when clear, then when set (BPL, BMI, BVC, BVS,
/// BCC, BCS, BNE, BEQ).
pub open spec fn branch_flag(p: Processor, k: int) -> bool {
    if k / 2 == 0 {
        p.psw.n
    } else if k / 2 == 1 {
        p.psw.v
    } else if k / 2 == 2 {
        p.psw.c
    } else {
        p.psw.z
    }
}

/// Opcode 0x10 + 0x20 * `k` is a conditional branch, taken exactly when the flag
/// `branch_flag` names is clear (for even `k`) or set (for odd `k`).
pub proof fn lemma_branch_opcodes(p: Processor, k: int)
    requires
        0 <= k < 8,
    ensures
        decode((0x10 + 0x20 * k) as u8) matches Instr::BranchIf(c, v) && p.cond_holds(c, v) == (branch_flag(p, k)
            == (k % 2 == 1)),
{
    reveal(decode);
}

} // verus!
