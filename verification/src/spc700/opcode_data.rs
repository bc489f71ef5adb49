use vstd::prelude::*;

use crate::spc700::alu::{BinOp, UnOp};
use crate::spc700::forms::R;
use crate::spc700::forms2::{BitOp, FlagOp};
use crate::spc700::forms3::{StackReg, WordOp};
use crate::spc700::modes::Mode;
use crate::spc700::step::{Cond, Instr, decode};

verus! {

/// How an SPC700 instruction names one of its operands.
#[derive(Clone, Copy, Debug)]
pub enum AddressMode {
    A,
    X,
    XInc,
    Y,
    Ya,
    Imm,
    D,
    Dx,
    Dy,
    Ix,
    Iy,
    Idx,
    Idy,
    Abs,
    AbsX,
    AbsY,
    Iax,
    Rel,
    Mb,
    Nmb,
    C,
    Sp,
    Psw,
    /// Number encoded in the opcode
    Encoded(u8),
}

/// The mnemonic and operands of an SPC700 opcode.
pub struct OpcodeData {
    pub name: &'static str,
    pub addr_modes: Vec<AddressMode>,
}

/// The mnemonic of each opcode.
pub open spec fn mnemonic(opcode: u8) -> Seq<char> {
    match opcode {
        0x00u8 => "NOP"@,
        0x01u8 => "TCALL"@,
        0x02u8 => "SET1"@,
        0x03u8 => "BBS"@,
        0x04u8 => "OR"@,
        0x05u8 => "OR"@,
        0x06u8 => "OR"@,
        0x07u8 => "OR"@,
        0x08u8 => "OR"@,
        0x09u8 => "OR"@,
        0x0Au8 => "OR1"@,
        0x0Bu8 => "ASL"@,
        0x0Cu8 => "ASL"@,
        0x0Du8 => "PUSH"@,
        0x0Eu8 => "TSET1"@,
        0x0Fu8 => "BRK"@,
        0x10u8 => "BPL"@,
        0x11u8 => "TCALL"@,
        0x12u8 => "CLR1"@,
        0x13u8 => "BBC"@,
        0x14u8 => "OR"@,
        0x15u8 => "OR"@,
        0x16u8 => "OR"@,
        0x17u8 => "OR"@,
        0x18u8 => "OR"@,
        0x19u8 => "OR"@,
        0x1Au8 => "DECW"@,
        0x1Bu8 => "ASL"@,
        0x1Cu8 => "ASL"@,
        0x1Du8 => "DEC"@,
        0x1Eu8 => "CMP"@,
        0x1Fu8 => "JMP"@,
        0x20u8 => "CLRP"@,
        0x21u8 => "TCALL"@,
        0x22u8 => "SET1"@,
        0x23u8 => "BBS"@,
        0x24u8 => "AND"@,
        0x25u8 => "AND"@,
        0x26u8 => "AND"@,
        0x27u8 => "AND"@,
        0x28u8 => "AND"@,
        0x29u8 => "AND"@,
        0x2Au8 => "OR1"@,
        0x2Bu8 => "ROL"@,
        0x2Cu8 => "ROL"@,
        0x2Du8 => "PUSH"@,
        0x2Eu8 => "CBNE"@,
        0x2Fu8 => "BRA"@,
        0x30u8 => "BMI"@,
        0x31u8 => "TCALL"@,
        0x32u8 => "CLR1"@,
        0x33u8 => "BBC"@,
        0x34u8 => "AND"@,
        0x35u8 => "AND"@,
        0x36u8 => "AND"@,
        0x37u8 => "AND"@,
        0x38u8 => "AND"@,
        0x39u8 => "AND"@,
        0x3Au8 => "INCW"@,
        0x3Bu8 => "ROL"@,
        0x3Cu8 => "ROL"@,
        0x3Du8 => "INC"@,
        0x3Eu8 => "CMP"@,
        0x3Fu8 => "CALL"@,
        0x40u8 => "SETP"@,
        0x41u8 => "TCALL"@,
        0x42u8 => "SET1"@,
        0x43u8 => "BBS"@,
        0x44u8 => "EOR"@,
        0x45u8 => "EOR"@,
        0x46u8 => "EOR"@,
        0x47u8 => "EOR"@,
        0x48u8 => "EOR"@,
        0x49u8 => "EOR"@,
        0x4Au8 => "AND1"@,
        0x4Bu8 => "LSR"@,
        0x4Cu8 => "LSR"@,
        0x4Du8 => "PUSH"@,
        0x4Eu8 => "TCLR1"@,
        0x4Fu8 => "PCALL"@,
        0x50u8 => "BVC"@,
        0x51u8 => "TCALL"@,
        0x52u8 => "CLR1"@,
        0x53u8 => "BBC"@,
        0x54u8 => "EOR"@,
        0x55u8 => "EOR"@,
        0x56u8 => "EOR"@,
        0x57u8 => "EOR"@,
        0x58u8 => "EOR"@,
        0x59u8 => "EOR"@,
        0x5Au8 => "CMPW"@,
        0x5Bu8 => "LSR"@,
        0x5Cu8 => "LSR"@,
        0x5Du8 => "MOV"@,
        0x5Eu8 => "CMP"@,
        0x5Fu8 => "JMP"@,
        0x60u8 => "CLRC"@,
        0x61u8 => "TCALL"@,
        0x62u8 => "SET1"@,
        0x63u8 => "BBS"@,
        0x64u8 => "CMP"@,
        0x65u8 => "CMP"@,
        0x66u8 => "CMP"@,
        0x67u8 => "CMP"@,
        0x68u8 => "CMP"@,
        0x69u8 => "CMP"@,
        0x6Au8 => "AND1"@,
        0x6Bu8 => "ROR"@,
        0x6Cu8 => "ROR"@,
        0x6Du8 => "PUSH"@,
        0x6Eu8 => "DBNZ"@,
        0x6Fu8 => "RET"@,
        0x70u8 => "BVS"@,
        0x71u8 => "TCALL"@,
        0x72u8 => "CLR1"@,
        0x73u8 => "BBC"@,
        0x74u8 => "CMP"@,
        0x75u8 => "CMP"@,
        0x76u8 => "CMP"@,
        0x77u8 => "CMP"@,
        0x78u8 => "CMP"@,
        0x79u8 => "CMP"@,
        0x7Au8 => "ADDW"@,
        0x7Bu8 => "ROR"@,
        0x7Cu8 => "ROR"@,
        0x7Du8 => "MOV"@,
        0x7Eu8 => "CMP"@,
        0x7Fu8 => "RETI"@,
        0x80u8 => "SETC"@,
        0x81u8 => "TCALL"@,
        0x82u8 => "SET1"@,
        0x83u8 => "BBS"@,
        0x84u8 => "ADC"@,
        0x85u8 => "ADC"@,
        0x86u8 => "ADC"@,
        0x87u8 => "ADC"@,
        0x88u8 => "ADC"@,
        0x89u8 => "ADC"@,
        0x8Au8 => "EOR1"@,
        0x8Bu8 => "DEC"@,
        0x8Cu8 => "DEC"@,
        0x8Du8 => "MOV"@,
        0x8Eu8 => "POP"@,
        0x8Fu8 => "MOV"@,
        0x90u8 => "BCC"@,
        0x91u8 => "TCALL"@,
        0x92u8 => "CLR1"@,
        0x93u8 => "BBC"@,
        0x94u8 => "ADC"@,
        0x95u8 => "ADC"@,
        0x96u8 => "ADC"@,
        0x97u8 => "ADC"@,
        0x98u8 => "ADC"@,
        0x99u8 => "ADC"@,
        0x9Au8 => "SUBW"@,
        0x9Bu8 => "DEC"@,
        0x9Cu8 => "DEC"@,
        0x9Du8 => "MOV"@,
        0x9Eu8 => "DIV"@,
        0x9Fu8 => "XCN"@,
        0xA0u8 => "EI"@,
        0xA1u8 => "TCALL"@,
        0xA2u8 => "SET1"@,
        0xA3u8 => "BBS"@,
        0xA4u8 => "SBC"@,
        0xA5u8 => "SBC"@,
        0xA6u8 => "SBC"@,
        0xA7u8 => "SBC"@,
        0xA8u8 => "SBC"@,
        0xA9u8 => "SBC"@,
        0xAAu8 => "MOV1"@,
        0xABu8 => "INC"@,
        0xACu8 => "INC"@,
        0xADu8 => "CMP"@,
        0xAEu8 => "POP"@,
        0xAFu8 => "MOV"@,
        0xB0u8 => "BCS"@,
        0xB1u8 => "TCALL"@,
        0xB2u8 => "CLR1"@,
        0xB3u8 => "BBC"@,
        0xB4u8 => "SBC"@,
        0xB5u8 => "SBC"@,
        0xB6u8 => "SBC"@,
        0xB7u8 => "SBC"@,
        0xB8u8 => "SBC"@,
        0xB9u8 => "SBC"@,
        0xBAu8 => "MOVW"@,
        0xBBu8 => "INC"@,
        0xBCu8 => "INC"@,
        0xBDu8 => "MOV"@,
        0xBEu8 => "DAS"@,
        0xBFu8 => "MOV"@,
        0xC0u8 => "DI"@,
        0xC1u8 => "TCALL"@,
        0xC2u8 => "SET1"@,
        0xC3u8 => "BBS"@,
        0xC4u8 => "MOV"@,
        0xC5u8 => "MOV"@,
        0xC6u8 => "MOV"@,
        0xC7u8 => "MOV"@,
        0xC8u8 => "CMP"@,
        0xC9u8 => "MOV"@,
        0xCAu8 => "MOV1"@,
        0xCBu8 => "MOV"@,
        0xCCu8 => "MOV"@,
        0xCDu8 => "MOV"@,
        0xCEu8 => "POP"@,
        0xCFu8 => "MUL"@,
        0xD0u8 => "BNE"@,
        0xD1u8 => "TCALL"@,
        0xD2u8 => "CLR1"@,
        0xD3u8 => "BBC"@,
        0xD4u8 => "MOV"@,
        0xD5u8 => "MOV"@,
        0xD6u8 => "MOV"@,
        0xD7u8 => "MOV"@,
        0xD8u8 => "MOV"@,
        0xD9u8 => "MOV"@,
        0xDAu8 => "MOVW"@,
        0xDBu8 => "MOV"@,
        0xDCu8 => "DEC"@,
        0xDDu8 => "MOV"@,
        0xDEu8 => "CBNE"@,
        0xDFu8 => "DAA"@,
        0xE0u8 => "CLRV"@,
        0xE1u8 => "TCALL"@,
        0xE2u8 => "SET1"@,
        0xE3u8 => "BBS"@,
        0xE4u8 => "MOV"@,
        0xE5u8 => "MOV"@,
        0xE6u8 => "MOV"@,
        0xE7u8 => "MOV"@,
        0xE8u8 => "MOV"@,
        0xE9u8 => "MOV"@,
        0xEAu8 => "NOT1"@,
        0xEBu8 => "MOV"@,
        0xECu8 => "MOV"@,
        0xEDu8 => "NOTC"@,
        0xEEu8 => "POP"@,
        0xEFu8 => "SLEEP"@,
        0xF0u8 => "BEQ"@,
        0xF1u8 => "TCALL"@,
        0xF2u8 => "CLR1"@,
        0xF3u8 => "BBC"@,
        0xF4u8 => "MOV"@,
        0xF5u8 => "MOV"@,
        0xF6u8 => "MOV"@,
        0xF7u8 => "MOV"@,
        0xF8u8 => "MOV"@,
        0xF9u8 => "MOV"@,
        0xFAu8 => "MOV"@,
        0xFBu8 => "MOV"@,
        0xFCu8 => "INC"@,
        0xFDu8 => "MOV"@,
        0xFEu8 => "DBNZ"@,
        _ => "STOP"@,
    }
}

/// The operands of each opcode, in assembly order.
pub open spec fn operands(opcode: u8) -> Seq<AddressMode> {
    match opcode {
        0x00u8 => seq![],
        0x01u8 => seq![AddressMode::Encoded(0)],
        0x02u8 => seq![AddressMode::Encoded(0), AddressMode::D],
        0x03u8 => seq![AddressMode::Encoded(0), AddressMode::D, AddressMode::Rel],
        0x04u8 => seq![AddressMode::A, AddressMode::D],
        0x05u8 => seq![AddressMode::A, AddressMode::Abs],
        0x06u8 => seq![AddressMode::A, AddressMode::Ix],
        0x07u8 => seq![AddressMode::A, AddressMode::Idx],
        0x08u8 => seq![AddressMode::A, AddressMode::Imm],
        0x09u8 => seq![AddressMode::D, AddressMode::D],
        0x0Au8 => seq![AddressMode::C, AddressMode::Mb],
        0x0Bu8 => seq![AddressMode::D],
        0x0Cu8 => seq![AddressMode::Abs],
        0x0Du8 => seq![AddressMode::Psw],
        0x0Eu8 => seq![AddressMode::Abs],
        0x0Fu8 => seq![],
        0x10u8 => seq![AddressMode::Rel],
        0x11u8 => seq![AddressMode::Encoded(1)],
        0x12u8 => seq![AddressMode::Encoded(0), AddressMode::D],
        0x13u8 => seq![AddressMode::Encoded(0), AddressMode::D, AddressMode::Rel],
        0x14u8 => seq![AddressMode::A, AddressMode::Dx],
        0x15u8 => seq![AddressMode::A, AddressMode::AbsX],
        0x16u8 => seq![AddressMode::A, AddressMode::AbsY],
        0x17u8 => seq![AddressMode::A, AddressMode::Idy],
        0x18u8 => seq![AddressMode::D, AddressMode::Imm],
        0x19u8 => seq![AddressMode::Ix, AddressMode::Iy],
        0x1Au8 => seq![AddressMode::D],
        0x1Bu8 => seq![AddressMode::Dx],
        0x1Cu8 => seq![AddressMode::A],
        0x1Du8 => seq![AddressMode::X],
        0x1Eu8 => seq![AddressMode::X, AddressMode::Abs],
        0x1Fu8 => seq![AddressMode::Iax],
        0x20u8 => seq![],
        0x21u8 => seq![AddressMode::Encoded(2)],
        0x22u8 => seq![AddressMode::Encoded(1), AddressMode::D],
        0x23u8 => seq![AddressMode::Encoded(1), AddressMode::D, AddressMode::Rel],
        0x24u8 => seq![AddressMode::A, AddressMode::D],
        0x25u8 => seq![AddressMode::A, AddressMode::Abs],
        0x26u8 => seq![AddressMode::A, AddressMode::Ix],
        0x27u8 => seq![AddressMode::A, AddressMode::Idx],
        0x28u8 => seq![AddressMode::A, AddressMode::Imm],
        0x29u8 => seq![AddressMode::D, AddressMode::D],
        0x2Au8 => seq![AddressMode::C, AddressMode::Nmb],
        0x2Bu8 => seq![AddressMode::D],
        0x2Cu8 => seq![AddressMode::Abs],
        0x2Du8 => seq![AddressMode::A],
        0x2Eu8 => seq![AddressMode::D, AddressMode::Rel],
        0x2Fu8 => seq![AddressMode::Rel],
        0x30u8 => seq![AddressMode::Rel],
        0x31u8 => seq![AddressMode::Encoded(3)],
        0x32u8 => seq![AddressMode::Encoded(1), AddressMode::D],
        0x33u8 => seq![AddressMode::Encoded(1), AddressMode::D, AddressMode::Rel],
        0x34u8 => seq![AddressMode::A, AddressMode::Dx],
        0x35u8 => seq![AddressMode::A, AddressMode::AbsX],
        0x36u8 => seq![AddressMode::A, AddressMode::AbsY],
        0x37u8 => seq![AddressMode::A, AddressMode::Idy],
        0x38u8 => seq![AddressMode::D, AddressMode::Imm],
        0x39u8 => seq![AddressMode::Ix, AddressMode::Iy],
        0x3Au8 => seq![AddressMode::D],
        0x3Bu8 => seq![AddressMode::Dx],
        0x3Cu8 => seq![AddressMode::A],
        0x3Du8 => seq![AddressMode::X],
        0x3Eu8 => seq![AddressMode::X, AddressMode::D],
        0x3Fu8 => seq![AddressMode::Abs],
        0x40u8 => seq![],
        0x41u8 => seq![AddressMode::Encoded(4)],
        0x42u8 => seq![AddressMode::Encoded(2), AddressMode::D],
        0x43u8 => seq![AddressMode::Encoded(2), AddressMode::D, AddressMode::Rel],
        0x44u8 => seq![AddressMode::A, AddressMode::D],
        0x45u8 => seq![AddressMode::A, AddressMode::Abs],
        0x46u8 => seq![AddressMode::A, AddressMode::Ix],
        0x47u8 => seq![AddressMode::A, AddressMode::Idx],
        0x48u8 => seq![AddressMode::A, AddressMode::Imm],
        0x49u8 => seq![AddressMode::D, AddressMode::D],
        0x4Au8 => seq![AddressMode::Mb],
        0x4Bu8 => seq![AddressMode::D],
        0x4Cu8 => seq![AddressMode::Abs],
        0x4Du8 => seq![AddressMode::X],
        0x4Eu8 => seq![AddressMode::Abs],
        0x4Fu8 => seq![AddressMode::Imm],
        0x50u8 => seq![AddressMode::Rel],
        0x51u8 => seq![AddressMode::Encoded(5)],
        0x52u8 => seq![AddressMode::Encoded(2), AddressMode::D],
        0x53u8 => seq![AddressMode::Encoded(2), AddressMode::D, AddressMode::Rel],
        0x54u8 => seq![AddressMode::A, AddressMode::Dx],
        0x55u8 => seq![AddressMode::A, AddressMode::AbsX],
        0x56u8 => seq![AddressMode::A, AddressMode::AbsY],
        0x57u8 => seq![AddressMode::A, AddressMode::Idy],
        0x58u8 => seq![AddressMode::D, AddressMode::Imm],
        0x59u8 => seq![AddressMode::Ix, AddressMode::Iy],
        0x5Au8 => seq![AddressMode::Ya, AddressMode::D],
        0x5Bu8 => seq![AddressMode::Dx],
        0x5Cu8 => seq![AddressMode::A],
        0x5Du8 => seq![AddressMode::X, AddressMode::A],
        0x5Eu8 => seq![AddressMode::Y, AddressMode::Abs],
        0x5Fu8 => seq![AddressMode::Abs],
        0x60u8 => seq![],
        0x61u8 => seq![AddressMode::Encoded(6)],
        0x62u8 => seq![AddressMode::Encoded(3), AddressMode::D],
        0x63u8 => seq![AddressMode::Encoded(3), AddressMode::D, AddressMode::Rel],
        0x64u8 => seq![AddressMode::A, AddressMode::D],
        0x65u8 => seq![AddressMode::A, AddressMode::Abs],
        0x66u8 => seq![AddressMode::A, AddressMode::Ix],
        0x67u8 => seq![AddressMode::A, AddressMode::Idx],
        0x68u8 => seq![AddressMode::A, AddressMode::Imm],
        0x69u8 => seq![AddressMode::D, AddressMode::D],
        0x6Au8 => seq![AddressMode::Nmb],
        0x6Bu8 => seq![AddressMode::D],
        0x6Cu8 => seq![AddressMode::Abs],
        0x6Du8 => seq![AddressMode::Y],
        0x6Eu8 => seq![AddressMode::D, AddressMode::Rel],
        0x6Fu8 => seq![],
        0x70u8 => seq![AddressMode::Rel],
        0x71u8 => seq![AddressMode::Encoded(7)],
        0x72u8 => seq![AddressMode::Encoded(3), AddressMode::D],
        0x73u8 => seq![AddressMode::Encoded(3), AddressMode::D, AddressMode::Rel],
        0x74u8 => seq![AddressMode::A, AddressMode::Dx],
        0x75u8 => seq![AddressMode::A, AddressMode::AbsX],
        0x76u8 => seq![AddressMode::A, AddressMode::AbsY],
        0x77u8 => seq![AddressMode::A, AddressMode::Idy],
        0x78u8 => seq![AddressMode::D, AddressMode::Imm],
        0x79u8 => seq![AddressMode::Ix, AddressMode::Iy],
        0x7Au8 => seq![AddressMode::Ya, AddressMode::D],
        0x7Bu8 => seq![AddressMode::Dx],
        0x7Cu8 => seq![AddressMode::A],
        0x7Du8 => seq![AddressMode::A, AddressMode::X],
        0x7Eu8 => seq![AddressMode::Y, AddressMode::D],
        0x7Fu8 => seq![],
        0x80u8 => seq![],
        0x81u8 => seq![AddressMode::Encoded(8)],
        0x82u8 => seq![AddressMode::Encoded(4), AddressMode::D],
        0x83u8 => seq![AddressMode::Encoded(4), AddressMode::D, AddressMode::Rel],
        0x84u8 => seq![AddressMode::A, AddressMode::D],
        0x85u8 => seq![AddressMode::A, AddressMode::Abs],
        0x86u8 => seq![AddressMode::A, AddressMode::Ix],
        0x87u8 => seq![AddressMode::A, AddressMode::Idx],
        0x88u8 => seq![AddressMode::A, AddressMode::Imm],
        0x89u8 => seq![AddressMode::D, AddressMode::D],
        0x8Au8 => seq![AddressMode::Mb],
        0x8Bu8 => seq![AddressMode::D],
        0x8Cu8 => seq![AddressMode::Abs],
        0x8Du8 => seq![AddressMode::Y, AddressMode::Imm],
        0x8Eu8 => seq![AddressMode::Psw],
        0x8Fu8 => seq![AddressMode::D, AddressMode::Imm],
        0x90u8 => seq![AddressMode::Rel],
        0x91u8 => seq![AddressMode::Encoded(9)],
        0x92u8 => seq![AddressMode::Encoded(4), AddressMode::D],
        0x93u8 => seq![AddressMode::Encoded(4), AddressMode::D, AddressMode::Rel],
        0x94u8 => seq![AddressMode::A, AddressMode::Dx],
        0x95u8 => seq![AddressMode::A, AddressMode::AbsX],
        0x96u8 => seq![AddressMode::A, AddressMode::AbsY],
        0x97u8 => seq![AddressMode::A, AddressMode::Idy],
        0x98u8 => seq![AddressMode::D, AddressMode::Imm],
        0x99u8 => seq![AddressMode::Ix, AddressMode::Iy],
        0x9Au8 => seq![AddressMode::Ya, AddressMode::D],
        0x9Bu8 => seq![AddressMode::Dx],
        0x9Cu8 => seq![AddressMode::A],
        0x9Du8 => seq![AddressMode::X, AddressMode::Sp],
        0x9Eu8 => seq![AddressMode::Ya, AddressMode::X],
        0x9Fu8 => seq![AddressMode::A],
        0xA0u8 => seq![],
        0xA1u8 => seq![AddressMode::Encoded(10)],
        0xA2u8 => seq![AddressMode::Encoded(5), AddressMode::D],
        0xA3u8 => seq![AddressMode::Encoded(5), AddressMode::D, AddressMode::Rel],
        0xA4u8 => seq![AddressMode::A, AddressMode::D],
        0xA5u8 => seq![AddressMode::A, AddressMode::Abs],
        0xA6u8 => seq![AddressMode::A, AddressMode::Ix],
        0xA7u8 => seq![AddressMode::A, AddressMode::Idx],
        0xA8u8 => seq![AddressMode::A, AddressMode::Imm],
        0xA9u8 => seq![AddressMode::D, AddressMode::D],
        0xAAu8 => seq![AddressMode::C, AddressMode::Mb],
        0xABu8 => seq![AddressMode::D],
        0xACu8 => seq![AddressMode::Abs],
        0xADu8 => seq![AddressMode::Y, AddressMode::Imm],
        0xAEu8 => seq![AddressMode::A],
        0xAFu8 => seq![AddressMode::XInc, AddressMode::A],
        0xB0u8 => seq![AddressMode::Rel],
        0xB1u8 => seq![AddressMode::Encoded(11)],
        0xB2u8 => seq![AddressMode::Encoded(5), AddressMode::D],
        0xB3u8 => seq![AddressMode::Encoded(5), AddressMode::D, AddressMode::Rel],
        0xB4u8 => seq![AddressMode::A, AddressMode::Dx],
        0xB5u8 => seq![AddressMode::A, AddressMode::AbsX],
        0xB6u8 => seq![AddressMode::A, AddressMode::AbsY],
        0xB7u8 => seq![AddressMode::A, AddressMode::Idy],
        0xB8u8 => seq![AddressMode::D, AddressMode::Imm],
        0xB9u8 => seq![AddressMode::Ix, AddressMode::Iy],
        0xBAu8 => seq![AddressMode::Ya, AddressMode::D],
        0xBBu8 => seq![AddressMode::Dx],
        0xBCu8 => seq![AddressMode::A],
        0xBDu8 => seq![AddressMode::Sp, AddressMode::X],
        0xBEu8 => seq![AddressMode::A],
        0xBFu8 => seq![AddressMode::A, AddressMode::XInc],
        0xC0u8 => seq![],
        0xC1u8 => seq![AddressMode::Encoded(12)],
        0xC2u8 => seq![AddressMode::Encoded(6), AddressMode::D],
        0xC3u8 => seq![AddressMode::Encoded(6), AddressMode::D, AddressMode::Rel],
        0xC4u8 => seq![AddressMode::D, AddressMode::A],
        0xC5u8 => seq![AddressMode::Abs, AddressMode::A],
        0xC6u8 => seq![AddressMode::Ix, AddressMode::A],
        0xC7u8 => seq![AddressMode::Idx, AddressMode::A],
        0xC8u8 => seq![AddressMode::X, AddressMode::Imm],
        0xC9u8 => seq![AddressMode::Abs, AddressMode::X],
        0xCAu8 => seq![AddressMode::Mb, AddressMode::C],
        0xCBu8 => seq![AddressMode::D, AddressMode::Y],
        0xCCu8 => seq![AddressMode::Abs, AddressMode::Y],
        0xCDu8 => seq![AddressMode::X, AddressMode::Imm],
        0xCEu8 => seq![AddressMode::X],
        0xCFu8 => seq![AddressMode::Ya],
        0xD0u8 => seq![AddressMode::Rel],
        0xD1u8 => seq![AddressMode::Encoded(13)],
        0xD2u8 => seq![AddressMode::Encoded(6), AddressMode::D],
        0xD3u8 => seq![AddressMode::Encoded(6), AddressMode::D, AddressMode::Rel],
        0xD4u8 => seq![AddressMode::Dx, AddressMode::A],
        0xD5u8 => seq![AddressMode::AbsX, AddressMode::A],
        0xD6u8 => seq![AddressMode::AbsY, AddressMode::A],
        0xD7u8 => seq![AddressMode::Idy, AddressMode::A],
        0xD8u8 => seq![AddressMode::D, AddressMode::X],
        0xD9u8 => seq![AddressMode::Dy, AddressMode::X],
        0xDAu8 => seq![AddressMode::D, AddressMode::Ya],
        0xDBu8 => seq![AddressMode::Dx, AddressMode::Y],
        0xDCu8 => seq![AddressMode::Y],
        0xDDu8 => seq![AddressMode::A, AddressMode::Y],
        0xDEu8 => seq![AddressMode::Dx, AddressMode::Rel],
        0xDFu8 => seq![AddressMode::A],
        0xE0u8 => seq![],
        0xE1u8 => seq![AddressMode::Encoded(14)],
        0xE2u8 => seq![AddressMode::Encoded(7), AddressMode::D],
        0xE3u8 => seq![AddressMode::Encoded(7), AddressMode::D, AddressMode::Rel],
        0xE4u8 => seq![AddressMode::A, AddressMode::D],
        0xE5u8 => seq![AddressMode::A, AddressMode::Abs],
        0xE6u8 => seq![AddressMode::A, AddressMode::Ix],
        0xE7u8 => seq![AddressMode::A, AddressMode::Idx],
        0xE8u8 => seq![AddressMode::A, AddressMode::Imm],
        0xE9u8 => seq![AddressMode::X, AddressMode::Abs],
        0xEAu8 => seq![AddressMode::Mb],
        0xEBu8 => seq![AddressMode::Y, AddressMode::D],
        0xECu8 => seq![AddressMode::Y, AddressMode::Abs],
        0xEDu8 => seq![],
        0xEEu8 => seq![AddressMode::Y],
        0xEFu8 => seq![],
        0xF0u8 => seq![AddressMode::Rel],
        0xF1u8 => seq![AddressMode::Encoded(15)],
        0xF2u8 => seq![AddressMode::Encoded(7), AddressMode::D],
        0xF3u8 => seq![AddressMode::Encoded(7), AddressMode::D, AddressMode::Rel],
        0xF4u8 => seq![AddressMode::A, AddressMode::Dx],
        0xF5u8 => seq![AddressMode::A, AddressMode::AbsX],
        0xF6u8 => seq![AddressMode::A, AddressMode::AbsY],
        0xF7u8 => seq![AddressMode::A, AddressMode::Idy],
        0xF8u8 => seq![AddressMode::X, AddressMode::D],
        0xF9u8 => seq![AddressMode::X, AddressMode::Dy],
        0xFAu8 => seq![AddressMode::D, AddressMode::D],
        0xFBu8 => seq![AddressMode::Y, AddressMode::Dx],
        0xFCu8 => seq![AddressMode::Y],
        0xFDu8 => seq![AddressMode::Y, AddressMode::A],
        0xFEu8 => seq![AddressMode::Y, AddressMode::Rel],
        _ => seq![],
    }
}

impl OpcodeData {
    /// Disassembly data for an opcode. The bit-numbered instructions (SET1, CLR1, BBS,
    /// BBC) carry the bit in the top three bits of the opcode, TCALL its table index in
    /// the top four.
    #[verifier::rlimit(100)]
    pub fn from_opcode(opcode: u8) -> (r: OpcodeData)
        ensures
            r.name@ == mnemonic(opcode),
            r.addr_modes@ == operands(opcode),
    {
        match opcode {
            0x00 => OpcodeData { name: "NOP", addr_modes: vec![] },
            0x01 => OpcodeData { name: "TCALL", addr_modes: vec![AddressMode::Encoded(0)] },
            0x02 => OpcodeData { name: "SET1", addr_modes: vec![AddressMode::Encoded(0), AddressMode::D] },
            0x03 => OpcodeData { name: "BBS", addr_modes: vec![AddressMode::Encoded(0), AddressMode::D, AddressMode::Rel] },
            0x04 => OpcodeData { name: "OR", addr_modes: vec![AddressMode::A, AddressMode::D] },
            0x05 => OpcodeData { name: "OR", addr_modes: vec![AddressMode::A, AddressMode::Abs] },
            0x06 => OpcodeData { name: "OR", addr_modes: vec![AddressMode::A, AddressMode::Ix] },
            0x07 => OpcodeData { name: "OR", addr_modes: vec![AddressMode::A, AddressMode::Idx] },
            0x08 => OpcodeData { name: "OR", addr_modes: vec![AddressMode::A, AddressMode::Imm] },
            0x09 => OpcodeData { name: "OR", addr_modes: vec![AddressMode::D, AddressMode::D] },
            0x0A => OpcodeData { name: "OR1", addr_modes: vec![AddressMode::C, AddressMode::Mb] },
            0x0B => OpcodeData { name: "ASL", addr_modes: vec![AddressMode::D] },
            0x0C => OpcodeData { name: "ASL", addr_modes: vec![AddressMode::Abs] },
            0x0D => OpcodeData { name: "PUSH", addr_modes: vec![AddressMode::Psw] },
            0x0E => OpcodeData { name: "TSET1", addr_modes: vec![AddressMode::Abs] },
            0x0F => OpcodeData { name: "BRK", addr_modes: vec![] },
            0x10 => OpcodeData { name: "BPL", addr_modes: vec![AddressMode::Rel] },
            0x11 => OpcodeData { name: "TCALL", addr_modes: vec![AddressMode::Encoded(1)] },
            0x12 => OpcodeData { name: "CLR1", addr_modes: vec![AddressMode::Encoded(0), AddressMode::D] },
            0x13 => OpcodeData { name: "BBC", addr_modes: vec![AddressMode::Encoded(0), AddressMode::D, AddressMode::Rel] },
            0x14 => OpcodeData { name: "OR", addr_modes: vec![AddressMode::A, AddressMode::Dx] },
            0x15 => OpcodeData { name: "OR", addr_modes: vec![AddressMode::A, AddressMode::AbsX] },
            0x16 => OpcodeData { name: "OR", addr_modes: vec![AddressMode::A, AddressMode::AbsY] },
            0x17 => OpcodeData { name: "OR", addr_modes: vec![AddressMode::A, AddressMode::Idy] },
            0x18 => OpcodeData { name: "OR", addr_modes: vec![AddressMode::D, AddressMode::Imm] },
            0x19 => OpcodeData { name: "OR", addr_modes: vec![AddressMode::Ix, AddressMode::Iy] },
            0x1A => OpcodeData { name: "DECW", addr_modes: vec![AddressMode::D] },
            0x1B => OpcodeData { name: "ASL", addr_modes: vec![AddressMode::Dx] },
            0x1C => OpcodeData { name: "ASL", addr_modes: vec![AddressMode::A] },
            0x1D => OpcodeData { name: "DEC", addr_modes: vec![AddressMode::X] },
            0x1E => OpcodeData { name: "CMP", addr_modes: vec![AddressMode::X, AddressMode::Abs] },
            0x1F => OpcodeData { name: "JMP", addr_modes: vec![AddressMode::Iax] },
            0x20 => OpcodeData { name: "CLRP", addr_modes: vec![] },
            0x21 => OpcodeData { name: "TCALL", addr_modes: vec![AddressMode::Encoded(2)] },
            0x22 => OpcodeData { name: "SET1", addr_modes: vec![AddressMode::Encoded(1), AddressMode::D] },
            0x23 => OpcodeData { name: "BBS", addr_modes: vec![AddressMode::Encoded(1), AddressMode::D, AddressMode::Rel] },
            0x24 => OpcodeData { name: "AND", addr_modes: vec![AddressMode::A, AddressMode::D] },
            0x25 => OpcodeData { name: "AND", addr_modes: vec![AddressMode::A, AddressMode::Abs] },
            0x26 => OpcodeData { name: "AND", addr_modes: vec![AddressMode::A, AddressMode::Ix] },
            0x27 => OpcodeData { name: "AND", addr_modes: vec![AddressMode::A, AddressMode::Idx] },
            0x28 => OpcodeData { name: "AND", addr_modes: vec![AddressMode::A, AddressMode::Imm] },
            0x29 => OpcodeData { name: "AND", addr_modes: vec![AddressMode::D, AddressMode::D] },
            0x2A => OpcodeData { name: "OR1", addr_modes: vec![AddressMode::C, AddressMode::Nmb] },
            0x2B => OpcodeData { name: "ROL", addr_modes: vec![AddressMode::D] },
            0x2C => OpcodeData { name: "ROL", addr_modes: vec![AddressMode::Abs] },
            0x2D => OpcodeData { name: "PUSH", addr_modes: vec![AddressMode::A] },
            0x2E => OpcodeData { name: "CBNE", addr_modes: vec![AddressMode::D, AddressMode::Rel] },
            0x2F => OpcodeData { name: "BRA", addr_modes: vec![AddressMode::Rel] },
            0x30 => OpcodeData { name: "BMI", addr_modes: vec![AddressMode::Rel] },
            0x31 => OpcodeData { name: "TCALL", addr_modes: vec![AddressMode::Encoded(3)] },
            0x32 => OpcodeData { name: "CLR1", addr_modes: vec![AddressMode::Encoded(1), AddressMode::D] },
            0x33 => OpcodeData { name: "BBC", addr_modes: vec![AddressMode::Encoded(1), AddressMode::D, AddressMode::Rel] },
            0x34 => OpcodeData { name: "AND", addr_modes: vec![AddressMode::A, AddressMode::Dx] },
            0x35 => OpcodeData { name: "AND", addr_modes: vec![AddressMode::A, AddressMode::AbsX] },
            0x36 => OpcodeData { name: "AND", addr_modes: vec![AddressMode::A, AddressMode::AbsY] },
            0x37 => OpcodeData { name: "AND", addr_modes: vec![AddressMode::A, AddressMode::Idy] },
            0x38 => OpcodeData { name: "AND", addr_modes: vec![AddressMode::D, AddressMode::Imm] },
            0x39 => OpcodeData { name: "AND", addr_modes: vec![AddressMode::Ix, AddressMode::Iy] },
            0x3A => OpcodeData { name: "INCW", addr_modes: vec![AddressMode::D] },
            0x3B => OpcodeData { name: "ROL", addr_modes: vec![AddressMode::Dx] },
            0x3C => OpcodeData { name: "ROL", addr_modes: vec![AddressMode::A] },
            0x3D => OpcodeData { name: "INC", addr_modes: vec![AddressMode::X] },
            0x3E => OpcodeData { name: "CMP", addr_modes: vec![AddressMode::X, AddressMode::D] },
            0x3F => OpcodeData { name: "CALL", addr_modes: vec![AddressMode::Abs] },
            0x40 => OpcodeData { name: "SETP", addr_modes: vec![] },
            0x41 => OpcodeData { name: "TCALL", addr_modes: vec![AddressMode::Encoded(4)] },
            0x42 => OpcodeData { name: "SET1", addr_modes: vec![AddressMode::Encoded(2), AddressMode::D] },
            0x43 => OpcodeData { name: "BBS", addr_modes: vec![AddressMode::Encoded(2), AddressMode::D, AddressMode::Rel] },
            0x44 => OpcodeData { name: "EOR", addr_modes: vec![AddressMode::A, AddressMode::D] },
            0x45 => OpcodeData { name: "EOR", addr_modes: vec![AddressMode::A, AddressMode::Abs] },
            0x46 => OpcodeData { name: "EOR", addr_modes: vec![AddressMode::A, AddressMode::Ix] },
            0x47 => OpcodeData { name: "EOR", addr_modes: vec![AddressMode::A, AddressMode::Idx] },
            0x48 => OpcodeData { name: "EOR", addr_modes: vec![AddressMode::A, AddressMode::Imm] },
            0x49 => OpcodeData { name: "EOR", addr_modes: vec![AddressMode::D, AddressMode::D] },
            0x4A => OpcodeData { name: "AND1", addr_modes: vec![AddressMode::Mb] },
            0x4B => OpcodeData { name: "LSR", addr_modes: vec![AddressMode::D] },
            0x4C => OpcodeData { name: "LSR", addr_modes: vec![AddressMode::Abs] },
            0x4D => OpcodeData { name: "PUSH", addr_modes: vec![AddressMode::X] },
            0x4E => OpcodeData { name: "TCLR1", addr_modes: vec![AddressMode::Abs] },
            0x4F => OpcodeData { name: "PCALL", addr_modes: vec![AddressMode::Imm] },
            0x50 => OpcodeData { name: "BVC", addr_modes: vec![AddressMode::Rel] },
            0x51 => OpcodeData { name: "TCALL", addr_modes: vec![AddressMode::Encoded(5)] },
            0x52 => OpcodeData { name: "CLR1", addr_modes: vec![AddressMode::Encoded(2), AddressMode::D] },
            0x53 => OpcodeData { name: "BBC", addr_modes: vec![AddressMode::Encoded(2), AddressMode::D, AddressMode::Rel] },
            0x54 => OpcodeData { name: "EOR", addr_modes: vec![AddressMode::A, AddressMode::Dx] },
            0x55 => OpcodeData { name: "EOR", addr_modes: vec![AddressMode::A, AddressMode::AbsX] },
            0x56 => OpcodeData { name: "EOR", addr_modes: vec![AddressMode::A, AddressMode::AbsY] },
            0x57 => OpcodeData { name: "EOR", addr_modes: vec![AddressMode::A, AddressMode::Idy] },
            0x58 => OpcodeData { name: "EOR", addr_modes: vec![AddressMode::D, AddressMode::Imm] },
            0x59 => OpcodeData { name: "EOR", addr_modes: vec![AddressMode::Ix, AddressMode::Iy] },
            0x5A => OpcodeData { name: "CMPW", addr_modes: vec![AddressMode::Ya, AddressMode::D] },
            0x5B => OpcodeData { name: "LSR", addr_modes: vec![AddressMode::Dx] },
            0x5C => OpcodeData { name: "LSR", addr_modes: vec![AddressMode::A] },
            0x5D => OpcodeData { name: "MOV", addr_modes: vec![AddressMode::X, AddressMode::A] },
            0x5E => OpcodeData { name: "CMP", addr_modes: vec![AddressMode::Y, AddressMode::Abs] },
            0x5F => OpcodeData { name: "JMP", addr_modes: vec![AddressMode::Abs] },
            0x60 => OpcodeData { name: "CLRC", addr_modes: vec![] },
            0x61 => OpcodeData { name: "TCALL", addr_modes: vec![AddressMode::Encoded(6)] },
            0x62 => OpcodeData { name: "SET1", addr_modes: vec![AddressMode::Encoded(3), AddressMode::D] },
            0x63 => OpcodeData { name: "BBS", addr_modes: vec![AddressMode::Encoded(3), AddressMode::D, AddressMode::Rel] },
            0x64 => OpcodeData { name: "CMP", addr_modes: vec![AddressMode::A, AddressMode::D] },
            0x65 => OpcodeData { name: "CMP", addr_modes: vec![AddressMode::A, AddressMode::Abs] },
            0x66 => OpcodeData { name: "CMP", addr_modes: vec![AddressMode::A, AddressMode::Ix] },
            0x67 => OpcodeData { name: "CMP", addr_modes: vec![AddressMode::A, AddressMode::Idx] },
            0x68 => OpcodeData { name: "CMP", addr_modes: vec![AddressMode::A, AddressMode::Imm] },
            0x69 => OpcodeData { name: "CMP", addr_modes: vec![AddressMode::D, AddressMode::D] },
            0x6A => OpcodeData { name: "AND1", addr_modes: vec![AddressMode::Nmb] },
            0x6B => OpcodeData { name: "ROR", addr_modes: vec![AddressMode::D] },
            0x6C => OpcodeData { name: "ROR", addr_modes: vec![AddressMode::Abs] },
            0x6D => OpcodeData { name: "PUSH", addr_modes: vec![AddressMode::Y] },
            0x6E => OpcodeData { name: "DBNZ", addr_modes: vec![AddressMode::D, AddressMode::Rel] },
            0x6F => OpcodeData { name: "RET", addr_modes: vec![] },
            0x70 => OpcodeData { name: "BVS", addr_modes: vec![AddressMode::Rel] },
            0x71 => OpcodeData { name: "TCALL", addr_modes: vec![AddressMode::Encoded(7)] },
            0x72 => OpcodeData { name: "CLR1", addr_modes: vec![AddressMode::Encoded(3), AddressMode::D] },
            0x73 => OpcodeData { name: "BBC", addr_modes: vec![AddressMode::Encoded(3), AddressMode::D, AddressMode::Rel] },
            0x74 => OpcodeData { name: "CMP", addr_modes: vec![AddressMode::A, AddressMode::Dx] },
            0x75 => OpcodeData { name: "CMP", addr_modes: vec![AddressMode::A, AddressMode::AbsX] },
            0x76 => OpcodeData { name: "CMP", addr_modes: vec![AddressMode::A, AddressMode::AbsY] },
            0x77 => OpcodeData { name: "CMP", addr_modes: vec![AddressMode::A, AddressMode::Idy] },
            0x78 => OpcodeData { name: "CMP", addr_modes: vec![AddressMode::D, AddressMode::Imm] },
            0x79 => OpcodeData { name: "CMP", addr_modes: vec![AddressMode::Ix, AddressMode::Iy] },
            0x7A => OpcodeData { name: "ADDW", addr_modes: vec![AddressMode::Ya, AddressMode::D] },
            0x7B => OpcodeData { name: "ROR", addr_modes: vec![AddressMode::Dx] },
            0x7C => OpcodeData { name: "ROR", addr_modes: vec![AddressMode::A] },
            0x7D => OpcodeData { name: "MOV", addr_modes: vec![AddressMode::A, AddressMode::X] },
            0x7E => OpcodeData { name: "CMP", addr_modes: vec![AddressMode::Y, AddressMode::D] },
            0x7F => OpcodeData { name: "RETI", addr_modes: vec![] },
            0x80 => OpcodeData { name: "SETC", addr_modes: vec![] },
            0x81 => OpcodeData { name: "TCALL", addr_modes: vec![AddressMode::Encoded(8)] },
            0x82 => OpcodeData { name: "SET1", addr_modes: vec![AddressMode::Encoded(4), AddressMode::D] },
            0x83 => OpcodeData { name: "BBS", addr_modes: vec![AddressMode::Encoded(4), AddressMode::D, AddressMode::Rel] },
            0x84 => OpcodeData { name: "ADC", addr_modes: vec![AddressMode::A, AddressMode::D] },
            0x85 => OpcodeData { name: "ADC", addr_modes: vec![AddressMode::A, AddressMode::Abs] },
            0x86 => OpcodeData { name: "ADC", addr_modes: vec![AddressMode::A, AddressMode::Ix] },
            0x87 => OpcodeData { name: "ADC", addr_modes: vec![AddressMode::A, AddressMode::Idx] },
            0x88 => OpcodeData { name: "ADC", addr_modes: vec![AddressMode::A, AddressMode::Imm] },
            0x89 => OpcodeData { name: "ADC", addr_modes: vec![AddressMode::D, AddressMode::D] },
            0x8A => OpcodeData { name: "EOR1", addr_modes: vec![AddressMode::Mb] },
            0x8B => OpcodeData { name: "DEC", addr_modes: vec![AddressMode::D] },
            0x8C => OpcodeData { name: "DEC", addr_modes: vec![AddressMode::Abs] },
            0x8D => OpcodeData { name: "MOV", addr_modes: vec![AddressMode::Y, AddressMode::Imm] },
            0x8E => OpcodeData { name: "POP", addr_modes: vec![AddressMode::Psw] },
            0x8F => OpcodeData { name: "MOV", addr_modes: vec![AddressMode::D, AddressMode::Imm] },
            0x90 => OpcodeData { name: "BCC", addr_modes: vec![AddressMode::Rel] },
            0x91 => OpcodeData { name: "TCALL", addr_modes: vec![AddressMode::Encoded(9)] },
            0x92 => OpcodeData { name: "CLR1", addr_modes: vec![AddressMode::Encoded(4), AddressMode::D] },
            0x93 => OpcodeData { name: "BBC", addr_modes: vec![AddressMode::Encoded(4), AddressMode::D, AddressMode::Rel] },
            0x94 => OpcodeData { name: "ADC", addr_modes: vec![AddressMode::A, AddressMode::Dx] },
            0x95 => OpcodeData { name: "ADC", addr_modes: vec![AddressMode::A, AddressMode::AbsX] },
            0x96 => OpcodeData { name: "ADC", addr_modes: vec![AddressMode::A, AddressMode::AbsY] },
            0x97 => OpcodeData { name: "ADC", addr_modes: vec![AddressMode::A, AddressMode::Idy] },
            0x98 => OpcodeData { name: "ADC", addr_modes: vec![AddressMode::D, AddressMode::Imm] },
            0x99 => OpcodeData { name: "ADC", addr_modes: vec![AddressMode::Ix, AddressMode::Iy] },
            0x9A => OpcodeData { name: "SUBW", addr_modes: vec![AddressMode::Ya, AddressMode::D] },
            0x9B => OpcodeData { name: "DEC", addr_modes: vec![AddressMode::Dx] },
            0x9C => OpcodeData { name: "DEC", addr_modes: vec![AddressMode::A] },
            0x9D => OpcodeData { name: "MOV", addr_modes: vec![AddressMode::X, AddressMode::Sp] },
            0x9E => OpcodeData { name: "DIV", addr_modes: vec![AddressMode::Ya, AddressMode::X] },
            0x9F => OpcodeData { name: "XCN", addr_modes: vec![AddressMode::A] },
            0xA0 => OpcodeData { name: "EI", addr_modes: vec![] },
            0xA1 => OpcodeData { name: "TCALL", addr_modes: vec![AddressMode::Encoded(10)] },
            0xA2 => OpcodeData { name: "SET1", addr_modes: vec![AddressMode::Encoded(5), AddressMode::D] },
            0xA3 => OpcodeData { name: "BBS", addr_modes: vec![AddressMode::Encoded(5), AddressMode::D, AddressMode::Rel] },
            0xA4 => OpcodeData { name: "SBC", addr_modes: vec![AddressMode::A, AddressMode::D] },
            0xA5 => OpcodeData { name: "SBC", addr_modes: vec![AddressMode::A, AddressMode::Abs] },
            0xA6 => OpcodeData { name: "SBC", addr_modes: vec![AddressMode::A, AddressMode::Ix] },
            0xA7 => OpcodeData { name: "SBC", addr_modes: vec![AddressMode::A, AddressMode::Idx] },
            0xA8 => OpcodeData { name: "SBC", addr_modes: vec![AddressMode::A, AddressMode::Imm] },
            0xA9 => OpcodeData { name: "SBC", addr_modes: vec![AddressMode::D, AddressMode::D] },
            0xAA => OpcodeData { name: "MOV1", addr_modes: vec![AddressMode::C, AddressMode::Mb] },
            0xAB => OpcodeData { name: "INC", addr_modes: vec![AddressMode::D] },
            0xAC => OpcodeData { name: "INC", addr_modes: vec![AddressMode::Abs] },
            0xAD => OpcodeData { name: "CMP", addr_modes: vec![AddressMode::Y, AddressMode::Imm] },
            0xAE => OpcodeData { name: "POP", addr_modes: vec![AddressMode::A] },
            0xAF => OpcodeData { name: "MOV", addr_modes: vec![AddressMode::XInc, AddressMode::A] },
            0xB0 => OpcodeData { name: "BCS", addr_modes: vec![AddressMode::Rel] },
            0xB1 => OpcodeData { name: "TCALL", addr_modes: vec![AddressMode::Encoded(11)] },
            0xB2 => OpcodeData { name: "CLR1", addr_modes: vec![AddressMode::Encoded(5), AddressMode::D] },
            0xB3 => OpcodeData { name: "BBC", addr_modes: vec![AddressMode::Encoded(5), AddressMode::D, AddressMode::Rel] },
            0xB4 => OpcodeData { name: "SBC", addr_modes: vec![AddressMode::A, AddressMode::Dx] },
            0xB5 => OpcodeData { name: "SBC", addr_modes: vec![AddressMode::A, AddressMode::AbsX] },
            0xB6 => OpcodeData { name: "SBC", addr_modes: vec![AddressMode::A, AddressMode::AbsY] },
            0xB7 => OpcodeData { name: "SBC", addr_modes: vec![AddressMode::A, AddressMode::Idy] },
            0xB8 => OpcodeData { name: "SBC", addr_modes: vec![AddressMode::D, AddressMode::Imm] },
            0xB9 => OpcodeData { name: "SBC", addr_modes: vec![AddressMode::Ix, AddressMode::Iy] },
            0xBA => OpcodeData { name: "MOVW", addr_modes: vec![AddressMode::Ya, AddressMode::D] },
            0xBB => OpcodeData { name: "INC", addr_modes: vec![AddressMode::Dx] },
            0xBC => OpcodeData { name: "INC", addr_modes: vec![AddressMode::A] },
            0xBD => OpcodeData { name: "MOV", addr_modes: vec![AddressMode::Sp, AddressMode::X] },
            0xBE => OpcodeData { name: "DAS", addr_modes: vec![AddressMode::A] },
            0xBF => OpcodeData { name: "MOV", addr_modes: vec![AddressMode::A, AddressMode::XInc] },
            0xC0 => OpcodeData { name: "DI", addr_modes: vec![] },
            0xC1 => OpcodeData { name: "TCALL", addr_modes: vec![AddressMode::Encoded(12)] },
            0xC2 => OpcodeData { name: "SET1", addr_modes: vec![AddressMode::Encoded(6), AddressMode::D] },
            0xC3 => OpcodeData { name: "BBS", addr_modes: vec![AddressMode::Encoded(6), AddressMode::D, AddressMode::Rel] },
            0xC4 => OpcodeData { name: "MOV", addr_modes: vec![AddressMode::D, AddressMode::A] },
            0xC5 => OpcodeData { name: "MOV", addr_modes: vec![AddressMode::Abs, AddressMode::A] },
            0xC6 => OpcodeData { name: "MOV", addr_modes: vec![AddressMode::Ix, AddressMode::A] },
            0xC7 => OpcodeData { name: "MOV", addr_modes: vec![AddressMode::Idx, AddressMode::A] },
            0xC8 => OpcodeData { name: "CMP", addr_modes: vec![AddressMode::X, AddressMode::Imm] },
            0xC9 => OpcodeData { name: "MOV", addr_modes: vec![AddressMode::Abs, AddressMode::X] },
            0xCA => OpcodeData { name: "MOV1", addr_modes: vec![AddressMode::Mb, AddressMode::C] },
            0xCB => OpcodeData { name: "MOV", addr_modes: vec![AddressMode::D, AddressMode::Y] },
            0xCC => OpcodeData { name: "MOV", addr_modes: vec![AddressMode::Abs, AddressMode::Y] },
            0xCD => OpcodeData { name: "MOV", addr_modes: vec![AddressMode::X, AddressMode::Imm] },
            0xCE => OpcodeData { name: "POP", addr_modes: vec![AddressMode::X] },
            0xCF => OpcodeData { name: "MUL", addr_modes: vec![AddressMode::Ya] },
            0xD0 => OpcodeData { name: "BNE", addr_modes: vec![AddressMode::Rel] },
            0xD1 => OpcodeData { name: "TCALL", addr_modes: vec![AddressMode::Encoded(13)] },
            0xD2 => OpcodeData { name: "CLR1", addr_modes: vec![AddressMode::Encoded(6), AddressMode::D] },
            0xD3 => OpcodeData { name: "BBC", addr_modes: vec![AddressMode::Encoded(6), AddressMode::D, AddressMode::Rel] },
            0xD4 => OpcodeData { name: "MOV", addr_modes: vec![AddressMode::Dx, AddressMode::A] },
            0xD5 => OpcodeData { name: "MOV", addr_modes: vec![AddressMode::AbsX, AddressMode::A] },
            0xD6 => OpcodeData { name: "MOV", addr_modes: vec![AddressMode::AbsY, AddressMode::A] },
            0xD7 => OpcodeData { name: "MOV", addr_modes: vec![AddressMode::Idy, AddressMode::A] },
            0xD8 => OpcodeData { name: "MOV", addr_modes: vec![AddressMode::D, AddressMode::X] },
            0xD9 => OpcodeData { name: "MOV", addr_modes: vec![AddressMode::Dy, AddressMode::X] },
            0xDA => OpcodeData { name: "MOVW", addr_modes: vec![AddressMode::D, AddressMode::Ya] },
            0xDB => OpcodeData { name: "MOV", addr_modes: vec![AddressMode::Dx, AddressMode::Y] },
            0xDC => OpcodeData { name: "DEC", addr_modes: vec![AddressMode::Y] },
            0xDD => OpcodeData { name: "MOV", addr_modes: vec![AddressMode::A, AddressMode::Y] },
            0xDE => OpcodeData { name: "CBNE", addr_modes: vec![AddressMode::Dx, AddressMode::Rel] },
            0xDF => OpcodeData { name: "DAA", addr_modes: vec![AddressMode::A] },
            0xE0 => OpcodeData { name: "CLRV", addr_modes: vec![] },
            0xE1 => OpcodeData { name: "TCALL", addr_modes: vec![AddressMode::Encoded(14)] },
            0xE2 => OpcodeData { name: "SET1", addr_modes: vec![AddressMode::Encoded(7), AddressMode::D] },
            0xE3 => OpcodeData { name: "BBS", addr_modes: vec![AddressMode::Encoded(7), AddressMode::D, AddressMode::Rel] },
            0xE4 => OpcodeData { name: "MOV", addr_modes: vec![AddressMode::A, AddressMode::D] },
            0xE5 => OpcodeData { name: "MOV", addr_modes: vec![AddressMode::A, AddressMode::Abs] },
            0xE6 => OpcodeData { name: "MOV", addr_modes: vec![AddressMode::A, AddressMode::Ix] },
            0xE7 => OpcodeData { name: "MOV", addr_modes: vec![AddressMode::A, AddressMode::Idx] },
            0xE8 => OpcodeData { name: "MOV", addr_modes: vec![AddressMode::A, AddressMode::Imm] },
            0xE9 => OpcodeData { name: "MOV", addr_modes: vec![AddressMode::X, AddressMode::Abs] },
            0xEA => OpcodeData { name: "NOT1", addr_modes: vec![AddressMode::Mb] },
            0xEB => OpcodeData { name: "MOV", addr_modes: vec![AddressMode::Y, AddressMode::D] },
            0xEC => OpcodeData { name: "MOV", addr_modes: vec![AddressMode::Y, AddressMode::Abs] },
            0xED => OpcodeData { name: "NOTC", addr_modes: vec![] },
            0xEE => OpcodeData { name: "POP", addr_modes: vec![AddressMode::Y] },
            0xEF => OpcodeData { name: "SLEEP", addr_modes: vec![] },
            0xF0 => OpcodeData { name: "BEQ", addr_modes: vec![AddressMode::Rel] },
            0xF1 => OpcodeData { name: "TCALL", addr_modes: vec![AddressMode::Encoded(15)] },
            0xF2 => OpcodeData { name: "CLR1", addr_modes: vec![AddressMode::Encoded(7), AddressMode::D] },
            0xF3 => OpcodeData { name: "BBC", addr_modes: vec![AddressMode::Encoded(7), AddressMode::D, AddressMode::Rel] },
            0xF4 => OpcodeData { name: "MOV", addr_modes: vec![AddressMode::A, AddressMode::Dx] },
            0xF5 => OpcodeData { name: "MOV", addr_modes: vec![AddressMode::A, AddressMode::AbsX] },
            0xF6 => OpcodeData { name: "MOV", addr_modes: vec![AddressMode::A, AddressMode::AbsY] },
            0xF7 => OpcodeData { name: "MOV", addr_modes: vec![AddressMode::A, AddressMode::Idy] },
            0xF8 => OpcodeData { name: "MOV", addr_modes: vec![AddressMode::X, AddressMode::D] },
            0xF9 => OpcodeData { name: "MOV", addr_modes: vec![AddressMode::X, AddressMode::Dy] },
            0xFA => OpcodeData { name: "MOV", addr_modes: vec![AddressMode::D, AddressMode::D] },
            0xFB => OpcodeData { name: "MOV", addr_modes: vec![AddressMode::Y, AddressMode::Dx] },
            0xFC => OpcodeData { name: "INC", addr_modes: vec![AddressMode::Y] },
            0xFD => OpcodeData { name: "MOV", addr_modes: vec![AddressMode::Y, AddressMode::A] },
            0xFE => OpcodeData { name: "DBNZ", addr_modes: vec![AddressMode::Y, AddressMode::Rel] },
            _ => OpcodeData { name: "STOP", addr_modes: vec![] },
        }
    }
}

/// The mnemonic of an instruction as the processor executes it. The two opcodes the
/// processor does not implement (SLEEP and STOP) share one instruction, so it has none.
pub open spec fn instr_mnemonic(ins: Instr) -> Seq<char> {
    let bin = |op: BinOp|
        match op {
            BinOp::Adc => "ADC"@,
            BinOp::And => "AND"@,
            BinOp::Eor => "EOR"@,
            BinOp::Or => "OR"@,
            BinOp::Sbc => "SBC"@,
        };
    let un = |op: UnOp|
        match op {
            UnOp::Asl => "ASL"@,
            UnOp::Dec => "DEC"@,
            UnOp::Inc => "INC"@,
            UnOp::Lsr => "LSR"@,
            UnOp::Rol => "ROL"@,
            UnOp::Ror => "ROR"@,
            UnOp::Tclr => "TCLR1"@,
            UnOp::Tset => "TSET1"@,
        };
    match ins {
        Instr::ReadA(op, _) => bin(op),
        Instr::MemBin(op, _, _) => bin(op),
        Instr::Compare(_, _) => "CMP"@,
        Instr::CompareMem(_, _) => "CMP"@,
        Instr::Load(_, _) => "MOV"@,
        Instr::Store(_, _) => "MOV"@,
        Instr::Transfer(_, _) => "MOV"@,
        Instr::MovSpX => "MOV"@,
        Instr::MovAXinc => "MOV"@,
        Instr::MovXincA => "MOV"@,
        Instr::MovMem(_, _) => "MOV"@,
        Instr::Rmw(op, _) => un(op),
        Instr::RegUn(op, _) => un(op),
        Instr::BranchIf(c, set) => match (c, set) {
            (Cond::N, false) => "BPL"@,
            (Cond::N, true) => "BMI"@,
            (Cond::V, false) => "BVC"@,
            (Cond::V, true) => "BVS"@,
            (Cond::C, false) => "BCC"@,
            (Cond::C, true) => "BCS"@,
            (Cond::Z, false) => "BNE"@,
            (Cond::Z, true) => "BEQ"@,
        },
        Instr::Bra => "BRA"@,
        Instr::BitBranch(_, set) => if set { "BBS"@ } else { "BBC"@ },
        Instr::Cbne(_) => "CBNE"@,
        Instr::DbnzY => "DBNZ"@,
        Instr::DbnzD => "DBNZ"@,
        Instr::Flag(f) => match f {
            FlagOp::Clrc => "CLRC"@,
            FlagOp::Clrp => "CLRP"@,
            FlagOp::Clrv => "CLRV"@,
            FlagOp::Setc => "SETC"@,
            FlagOp::Setp => "SETP"@,
            FlagOp::Di => "DI"@,
            FlagOp::Ei => "EI"@,
            FlagOp::Notc => "NOTC"@,
        },
        Instr::Bit(op) => match op {
            BitOp::And1Not => "AND1"@,
            BitOp::And1 => "AND1"@,
            BitOp::Or1 => "OR1"@,
            BitOp::Or1Not => "OR1"@,
            BitOp::Eor1 => "EOR1"@,
            BitOp::Mov1ToC => "MOV1"@,
            BitOp::Mov1FromC => "MOV1"@,
            BitOp::Not1 => "NOT1"@,
        },
        Instr::SetBit(_, set) => if set { "SET1"@ } else { "CLR1"@ },
        Instr::Word(op) => match op {
            WordOp::Addw => "ADDW"@,
            WordOp::Subw => "SUBW"@,
            WordOp::Cmpw => "CMPW"@,
            WordOp::Incw => "INCW"@,
            WordOp::Decw => "DECW"@,
            WordOp::Store => "MOVW"@,
            WordOp::Load => "MOVW"@,
        },
        Instr::Daa => "DAA"@,
        Instr::Das => "DAS"@,
        Instr::Div => "DIV"@,
        Instr::Mul => "MUL"@,
        Instr::Xcn => "XCN"@,
        Instr::Push(_) => "PUSH"@,
        Instr::Pop(_) => "POP"@,
        Instr::Ret => "RET"@,
        Instr::Reti => "RETI"@,
        Instr::Call => "CALL"@,
        Instr::Pcall => "PCALL"@,
        Instr::Tcall(_) => "TCALL"@,
        Instr::Brk => "BRK"@,
        Instr::JmpAbs => "JMP"@,
        Instr::JmpIax => "JMP"@,
        Instr::Nop => "NOP"@,
        Instr::Unknown => Seq::empty(),
    }
}

/// The listing operand of an addressing mode.
pub open spec fn mode_operand(m: Mode) -> AddressMode {
    match m {
        Mode::Imm => AddressMode::Imm,
        Mode::D => AddressMode::D,
        Mode::Dx => AddressMode::Dx,
        Mode::Dy => AddressMode::Dy,
        Mode::Ix => AddressMode::Ix,
        Mode::Iy => AddressMode::Iy,
        Mode::Idx => AddressMode::Idx,
        Mode::Idy => AddressMode::Idy,
        Mode::Abs => AddressMode::Abs,
        Mode::AbsX => AddressMode::AbsX,
        Mode::AbsY => AddressMode::AbsY,
    }
}

/// The listing operand of a register.
pub open spec fn reg_operand(r: R) -> AddressMode {
    match r {
        R::A => AddressMode::A,
        R::X => AddressMode::X,
        R::Y => AddressMode::Y,
        R::Sp => AddressMode::Sp,
    }
}

/// The operands, destination first, of the instructions whose operands the processor
/// takes from their decoded form.
pub open spec fn instr_operands(ins: Instr) -> Option<Seq<AddressMode>> {
    match ins {
        Instr::ReadA(_, m) => Some(seq![AddressMode::A, mode_operand(m)]),
        Instr::Compare(r, m) => Some(seq![reg_operand(r), mode_operand(m)]),
        Instr::Load(r, m) => Some(seq![reg_operand(r), mode_operand(m)]),
        Instr::Store(r, m) => Some(seq![mode_operand(m), reg_operand(r)]),
        Instr::MemBin(_, t, s) => Some(seq![mode_operand(t), mode_operand(s)]),
        Instr::CompareMem(l, r) => Some(seq![mode_operand(l), mode_operand(r)]),
        Instr::MovMem(s, d) => Some(seq![mode_operand(d), mode_operand(s)]),
        Instr::Rmw(_, m) => Some(seq![mode_operand(m)]),
        Instr::RegUn(_, r) => Some(seq![reg_operand(r)]),
        Instr::Transfer(d, s) => Some(seq![reg_operand(d), reg_operand(s)]),
        Instr::BranchIf(_, _) => Some(seq![AddressMode::Rel]),
        Instr::Bra => Some(seq![AddressMode::Rel]),
        Instr::Cbne(m) => Some(seq![mode_operand(m), AddressMode::Rel]),
        Instr::BitBranch(b, _) => Some(seq![AddressMode::Encoded(b), AddressMode::D, AddressMode::Rel]),
        Instr::SetBit(b, _) => Some(seq![AddressMode::Encoded(b), AddressMode::D]),
        Instr::Tcall(k) => Some(seq![AddressMode::Encoded(k)]),
        Instr::Push(r) => Some(seq![stack_operand(r)]),
        Instr::Pop(r) => Some(seq![stack_operand(r)]),
        _ => None,
    }
}

/// The listing operand of a register pushed or pulled.
pub open spec fn stack_operand(r: StackReg) -> AddressMode {
    match r {
        StackReg::A => AddressMode::A,
        StackReg::X => AddressMode::X,
        StackReg::Y => AddressMode::Y,
        StackReg::Psw => AddressMode::Psw,
    }
}

/// Whether the listing of `opcode` agrees with the instruction executed for it: the
/// same mnemonic (SLEEP or STOP for the two unimplemented opcodes) and, where the
/// instruction carries them, the same operands.
pub open spec fn listing_matches(opcode: u8) -> bool {
    &&& decode(opcode) !is Unknown ==> mnemonic(opcode) == instr_mnemonic(decode(opcode))
    &&& decode(opcode) is Unknown ==> mnemonic(opcode) == "SLEEP"@ || mnemonic(opcode) == "STOP"@
    &&& instr_operands(decode(opcode)) is Some ==> operands(opcode) == instr_operands(decode(opcode))->0
}

/// The listing names each opcode after the instruction the processor executes for it,
/// and, where the instruction carries its operands, lists those operands: an opcode
/// executed as an ADC is listed as ADC, with the same addressing mode. The two opcodes
/// the processor does not implement are listed as SLEEP and STOP.
pub proof fn lemma_listing_matches_execution(opcode: u8)
    ensures
        listing_matches(opcode),
{
    if opcode < 0x10 {
        lemma_listing_row_0(opcode);
    } else if opcode < 0x20 {
        lemma_listing_row_1(opcode);
    } else if opcode < 0x30 {
        lemma_listing_row_2(opcode);
    } else if opcode < 0x40 {
        lemma_listing_row_3(opcode);
    } else if opcode < 0x50 {
        lemma_listing_row_4(opcode);
    } else if opcode < 0x60 {
        lemma_listing_row_5(opcode);
    } else if opcode < 0x70 {
        lemma_listing_row_6(opcode);
    } else if opcode < 0x80 {
        lemma_listing_row_7(opcode);
    } else if opcode < 0x90 {
        lemma_listing_row_8(opcode);
    } else if opcode < 0xA0 {
        lemma_listing_row_9(opcode);
    } else if opcode < 0xB0 {
        lemma_listing_row_A(opcode);
    } else if opcode < 0xC0 {
        lemma_listing_row_B(opcode);
    } else if opcode < 0xD0 {
        lemma_listing_row_C(opcode);
    } else if opcode < 0xE0 {
        lemma_listing_row_D(opcode);
    } else if opcode < 0xF0 {
        lemma_listing_row_E(opcode);
    } else {
        lemma_listing_row_F(opcode);
    }
}

/// Opcodes 0x00 to 0x0F.
#[verifier::rlimit(100)]
proof fn lemma_listing_row_0(opcode: u8)
    requires
        opcode < 0x10,
    ensures
        listing_matches(opcode),
{
    reveal(decode);
}

/// Opcodes 0x10 to 0x1F.
#[verifier::rlimit(100)]
proof fn lemma_listing_row_1(opcode: u8)
    requires
        opcode >= 0x10, opcode < 0x20,
    ensures
        listing_matches(opcode),
{
    reveal(decode);
}

/// Opcodes 0x20 to 0x2F.
#[verifier::rlimit(100)]
proof fn lemma_listing_row_2(opcode: u8)
    requires
        opcode >= 0x20, opcode < 0x30,
    ensures
        listing_matches(opcode),
{
    reveal(decode);
}

/// Opcodes 0x30 to 0x3F.
#[verifier::rlimit(100)]
proof fn lemma_listing_row_3(opcode: u8)
    requires
        opcode >= 0x30, opcode < 0x40,
    ensures
        listing_matches(opcode),
{
    reveal(decode);
}

/// Opcodes 0x40 to 0x4F.
#[verifier::rlimit(100)]
proof fn lemma_listing_row_4(opcode: u8)
    requires
        opcode >= 0x40, opcode < 0x50,
    ensures
        listing_matches(opcode),
{
    reveal(decode);
}

/// Opcodes 0x50 to 0x5F.
#[verifier::rlimit(100)]
proof fn lemma_listing_row_5(opcode: u8)
    requires
        opcode >= 0x50, opcode < 0x60,
    ensures
        listing_matches(opcode),
{
    reveal(decode);
}

/// Opcodes 0x60 to 0x6F.
#[verifier::rlimit(100)]
proof fn lemma_listing_row_6(opcode: u8)
    requires
        opcode >= 0x60, opcode < 0x70,
    ensures
        listing_matches(opcode),
{
    reveal(decode);
}

/// Opcodes 0x70 to 0x7F.
#[verifier::rlimit(100)]
proof fn lemma_listing_row_7(opcode: u8)
    requires
        opcode >= 0x70, opcode < 0x80,
    ensures
        listing_matches(opcode),
{
    reveal(decode);
}

/// Opcodes 0x80 to 0x8F.
#[verifier::rlimit(100)]
proof fn lemma_listing_row_8(opcode: u8)
    requires
        opcode >= 0x80, opcode < 0x90,
    ensures
        listing_matches(opcode),
{
    reveal(decode);
}

/// Opcodes 0x90 to 0x9F.
#[verifier::rlimit(100)]
proof fn lemma_listing_row_9(opcode: u8)
    requires
        opcode >= 0x90, opcode < 0xA0,
    ensures
        listing_matches(opcode),
{
    reveal(decode);
}

/// Opcodes 0xA0 to 0xAF.
#[verifier::rlimit(100)]
proof fn lemma_listing_row_A(opcode: u8)
    requires
        opcode >= 0xA0, opcode < 0xB0,
    ensures
        listing_matches(opcode),
{
    reveal(decode);
}

/// Opcodes 0xB0 to 0xBF.
#[verifier::rlimit(100)]
proof fn lemma_listing_row_B(opcode: u8)
    requires
        opcode >= 0xB0, opcode < 0xC0,
    ensures
        listing_matches(opcode),
{
    reveal(decode);
}

/// Opcodes 0xC0 to 0xCF.
#[verifier::rlimit(100)]
proof fn lemma_listing_row_C(opcode: u8)
    requires
        opcode >= 0xC0, opcode < 0xD0,
    ensures
        listing_matches(opcode),
{
    reveal(decode);
}

/// Opcodes 0xD0 to 0xDF.
#[verifier::rlimit(100)]
proof fn lemma_listing_row_D(opcode: u8)
    requires
        opcode >= 0xD0, opcode < 0xE0,
    ensures
        listing_matches(opcode),
{
    reveal(decode);
}

/// Opcodes 0xE0 to 0xEF.
#[verifier::rlimit(100)]
proof fn lemma_listing_row_E(opcode: u8)
    requires
        opcode >= 0xE0, opcode < 0xF0,
    ensures
        listing_matches(opcode),
{
    reveal(decode);
}

/// Opcodes 0xF0 to 0xFF.
#[verifier::rlimit(100)]
proof fn lemma_listing_row_F(opcode: u8)
    requires
        opcode >= 0xF0,
    ensures
        listing_matches(opcode),
{
    reveal(decode);
}

} // verus!
