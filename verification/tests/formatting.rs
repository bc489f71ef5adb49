use lib::spc700::format::format_address_modes;
use lib::spc700::opcode_data::AddressMode;

#[test]
fn register_and_immediate() {
    let s = format_address_modes(&[AddressMode::A, AddressMode::Imm], &[0x42]);
    assert_eq!(s, "A, #$42");
}

#[test]
fn later_operand_bytes_come_first() {
    let s = format_address_modes(&[AddressMode::D, AddressMode::D], &[0x11, 0x22]);
    assert_eq!(s, "$22, $11");
    let s = format_address_modes(&[AddressMode::D, AddressMode::Rel], &[0xFE, 0x10]);
    assert_eq!(s, "$10, -2");
}

#[test]
fn bit_direct_and_relative() {
    let s = format_address_modes(
        &[AddressMode::Encoded(3), AddressMode::D, AddressMode::Rel],
        &[0x05, 0x20],
    );
    assert_eq!(s, "bit3, $20, +5");
    let s = format_address_modes(&[AddressMode::Encoded(10)], &[]);
    assert_eq!(s, "bitA");
}

#[test]
fn words_are_little_endian() {
    assert_eq!(format_address_modes(&[AddressMode::Abs], &[0x34, 0x12]), "$1234");
    assert_eq!(format_address_modes(&[AddressMode::AbsX], &[0x00, 0x80]), "$8000, X");
    assert_eq!(format_address_modes(&[AddressMode::AbsY], &[0xCD, 0xAB]), "$ABCD, Y");
    assert_eq!(format_address_modes(&[AddressMode::Iax], &[0x00, 0x80]), "[$8000]");
}

#[test]
fn indirect_and_indexed_forms() {
    assert_eq!(format_address_modes(&[AddressMode::Idx], &[0x10]), "([$10 + X])");
    assert_eq!(format_address_modes(&[AddressMode::Idy], &[0x10]), "([$10] + Y)");
    assert_eq!(format_address_modes(&[AddressMode::Dx], &[0x0A]), "$0A, X");
    assert_eq!(format_address_modes(&[AddressMode::Dy], &[0xFF]), "$FF, Y");
    assert_eq!(
        format_address_modes(&[AddressMode::Ix, AddressMode::Iy], &[]),
        "(X), (Y)"
    );
}

#[test]
fn relative_extremes() {
    assert_eq!(format_address_modes(&[AddressMode::Rel], &[0x80]), "-128");
    assert_eq!(format_address_modes(&[AddressMode::Rel], &[0x7F]), "+127");
    assert_eq!(format_address_modes(&[AddressMode::Rel], &[0x00]), "+0");
}

#[test]
fn named_registers() {
    let s = format_address_modes(
        &[
            AddressMode::XInc,
            AddressMode::Ya,
            AddressMode::Sp,
            AddressMode::Psw,
            AddressMode::C,
            AddressMode::Mb,
            AddressMode::Nmb,
            AddressMode::X,
            AddressMode::Y,
        ],
        &[],
    );
    assert_eq!(s, "XINC, YA, SP, PSW, C, Mb, Nmb, X, Y");
}

#[test]
fn no_modes_give_empty_text() {
    assert_eq!(format_address_modes(&[], &[1, 2, 3]), "");
}

use lib::spc700::processor::Processor as Spc700;
use lib::spc700::program_status_word::ProgramStatusWord;
use lib::wdc65816::processor::Processor as Wdc65816;
use lib::wdc65816::status_register::StatusRegister;

#[test]
fn spc700_flags_as_text() {
    let mut w = ProgramStatusWord::default();
    assert_eq!(w.to_string(), "N=0 V=0 P=0 B=0 H=0 I=0 Z=0 C=0 (00)");
    w.n = true;
    w.c = true;
    assert_eq!(w.to_string(), "N=1 V=0 P=0 B=0 H=0 I=0 Z=0 C=1 (81)");
}

#[test]
fn spc700_registers_as_text() {
    let mut p = Spc700::default();
    p.a = 1;
    p.x = 2;
    p.y = 3;
    p.sp = 0xEF;
    p.pc = 0xFFC0;
    p.psw = ProgramStatusWord::default();
    assert_eq!(
        p.to_string(),
        "A=01 X=02 Y=03 SP=EF PC=FFC0 PSW=[N=0 V=0 P=0 B=0 H=0 I=0 Z=0 C=0 (00)]"
    );
}

fn status(m: bool, xb: bool) -> StatusRegister {
    StatusRegister {
        c: false,
        z: false,
        n: false,
        d: false,
        i: false,
        m,
        v: false,
        e: false,
        xb,
    }
}

#[test]
fn wdc65816_status_as_text() {
    assert_eq!(
        status(true, true).to_string(),
        "30 (C:0 Z:0 I:0 D:0 M:1 V:0 N:0 E:0 XB:1)"
    );
}

#[test]
fn wdc65816_registers_as_text() {
    let mut p = Wdc65816::default();
    p.pc = 0x8000;
    p.pbr = 0x12;
    p.a = 0x34;
    p.b = 0x12;
    p.xl = 5;
    p.yl = 6;
    p.p = status(false, false);
    p.p.c = true;
    p.p.i = true;
    p.dh = 0x20;
    p.dbr = 0x7E;
    p.s = 0x1FF;
    assert_eq!(
        p.to_debug_string(),
        "PBR=12 PC=8000 C=1234 X=0005 Y=0006 P=05 P.e=0 D=0020 DBR=7E S=1FF"
    );
    // narrow registers, and the program counter and stack pointer padded with spaces
    p.pc = 0x12;
    p.s = 5;
    p.p = status(true, true);
    assert_eq!(
        p.to_debug_string(),
        "PBR=12 PC=  12 C=0034 X=0005 Y=0006 P=30 P.e=0 D=0020 DBR=7E S= 5"
    );
}
