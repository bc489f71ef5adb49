use lib::bus_event::BusEvent;
use lib::spc700::opcode_data::{AddressMode, OpcodeData};
use lib::spc700::processor::{HasAddressBus as SpcBus, Processor as Spc700};
use lib::spc700::program_status_word::ProgramStatusWord;
use lib::wdc65816::bus::Bus;
use lib::wdc65816::processor::{HasAddressBus as WdcBus, Processor as Wdc65816};
use lib::wdc65816::status_register::StatusRegister;
use lib::wdc65816::u24::u24;

struct Ram {
    bytes: Vec<u8>,
}

impl SpcBus for Ram {
    fn bus_events(&self) -> vstd::seq::Seq<BusEvent> {
        panic!("the bus event log only exists in proofs")
    }
    fn io(&mut self) {}
    fn read(&mut self, address: usize) -> u8 {
        self.bytes[address % self.bytes.len()]
    }
    fn write(&mut self, address: usize, value: u8) {
        let n = self.bytes.len();
        self.bytes[address % n] = value;
    }
}

impl WdcBus for Ram {
    fn bus_events(&self) -> vstd::seq::Seq<BusEvent> {
        panic!("the bus event log only exists in proofs")
    }
    fn origin(&self) -> Self {
        panic!("the traced origin only exists in proofs")
    }
    fn traced(&self) -> bool {
        panic!("tracing only exists in proofs")
    }
    fn io(&mut self) {}
    fn read(&mut self, address: usize) -> u8 {
        self.bytes[address % self.bytes.len()]
    }
    fn write(&mut self, address: usize, value: u8) {
        let n = self.bytes.len();
        self.bytes[address % n] = value;
    }
}

fn ram_with(program: &[u8]) -> Ram {
    let mut bytes = vec![0u8; 0x10000];
    bytes[..program.len()].copy_from_slice(program);
    Ram { bytes }
}

#[test]
fn spc700_opcode_names() {
    let nop = OpcodeData::from_opcode(0x00);
    assert_eq!(nop.name, "NOP");
    assert!(nop.addr_modes.is_empty());
    let mov = OpcodeData::from_opcode(0xE8);
    assert_eq!(mov.name, "MOV");
    assert!(matches!(mov.addr_modes[..], [AddressMode::A, AddressMode::Imm]));
}

#[test]
fn spc700_psw_byte_roundtrip() {
    for b in [0x00u8, 0xA5, 0x5A, 0xFF, 0x81] {
        assert_eq!(ProgramStatusWord::from_byte(b).to_byte(), b);
    }
    let psw = ProgramStatusWord::from_byte(0x81);
    assert!(psw.n);
    assert!(psw.c);
    assert!(!psw.z);
}

#[test]
fn spc700_mov_immediate() {
    let mut p = Spc700::default();
    p.pc = 0;
    let mut ram = ram_with(&[0xE8, 0x42]);
    assert_eq!(p.step(&mut ram), Ok(()));
    assert_eq!(p.a, 0x42);
    assert_eq!(p.pc, 2);
    assert!(!p.psw.z);
    assert!(!p.psw.n);
}

#[test]
fn spc700_adc_sets_carry() {
    let mut p = Spc700::default();
    p.pc = 0;
    p.a = 0xF0;
    // ADC A, #$20
    let mut ram = ram_with(&[0x88, 0x20]);
    assert_eq!(p.step(&mut ram), Ok(()));
    assert_eq!(p.a, 0x10);
    assert!(p.psw.c);
}

#[test]
fn spc700_sleep_and_stop_are_reported() {
    let mut p = Spc700::default();
    p.pc = 0;
    let mut ram = ram_with(&[0xEF]);
    assert_eq!(p.step(&mut ram), Err(0xEF));
    let mut p = Spc700::default();
    p.pc = 0;
    let mut ram = ram_with(&[0xFF]);
    assert_eq!(p.step(&mut ram), Err(0xFF));
}

#[test]
fn wdc65816_status_register_roundtrip() {
    for b in [0x00u8, 0x34, 0xFF, 0xC3] {
        let s = StatusRegister::from_byte(b, false);
        assert_eq!(s.to_byte(false), b);
    }
    let s = StatusRegister::from_byte(0x20, false);
    assert!(s.a_is_8bit());
    assert!(!s.a_is_16bit());
    assert!(s.xy_is_16bit());
}

#[test]
fn wdc65816_lda_immediate_in_emulation_mode() {
    let mut p = Wdc65816::default();
    p.p.e = true;
    p.p.m = true;
    p.p.xb = true;
    p.pc = 0;
    let mut ram = ram_with(&[0xA9, 0x80]);
    p.step(&mut ram);
    assert_eq!(p.a, 0x80);
    assert_eq!(p.pc, 2);
    assert!(p.p.n);
    assert!(!p.p.z);
}

#[test]
fn wdc65816_sta_absolute() {
    let mut p = Wdc65816::default();
    p.p.e = true;
    p.p.m = true;
    p.p.xb = true;
    p.pc = 0;
    p.a = 0x5A;
    let mut ram = ram_with(&[0x8D, 0x00, 0x12]);
    p.step(&mut ram);
    assert_eq!(ram.bytes[0x1200], 0x5A);
    assert_eq!(p.pc, 3);
}

#[test]
fn u24_arithmetic() {
    let a = u24::from(0x12, 0x3456);
    assert_eq!(a.value(), 0x123456);
    assert_eq!(a.with_bank(0x7E).value(), 0x7E3456);
    assert_eq!(u24::from(0xFF, 0xFFFF).wrapping_add(2).value(), 1);
    assert_eq!(u24::from_le_bytes([0x56, 0x34, 0x12]).value(), 0x123456);
}

#[test]
fn bus_offsets_wrap_within_bank() {
    let b = Bus::new(0x12, 0xFFFF);
    let o = b.offset(2);
    assert_eq!(o.bank, 0x12);
    assert_eq!(o.address, 0x0001);
    let w = b.with_bank(0x34);
    assert_eq!(w.bank, 0x34);
    assert_eq!(w.address, 0xFFFF);
}

#[test]
fn spc700_branch_wraps_at_the_top_of_memory() {
    let mut ram = ram_with(&[]);
    ram.bytes[0xFFF0] = 0xF0; // BEQ
    ram.bytes[0xFFF1] = 0x0D; // +13
    let mut p = Spc700::default();
    p.pc = 0xFFF0;
    p.psw.z = true;
    assert_eq!(p.step(&mut ram), Ok(()));
    assert_eq!(p.pc, 0xFFFF);
    // and backwards below address 0
    let mut ram = ram_with(&[0xF0, 0xFC]);
    let mut p = Spc700::default();
    p.pc = 0;
    p.psw.z = true;
    assert_eq!(p.step(&mut ram), Ok(()));
    assert_eq!(p.pc, 0xFFFE);
    // past 0xFFFF the target wraps to the bottom
    let mut ram = ram_with(&[]);
    ram.bytes[0xFFF0] = 0xF0;
    ram.bytes[0xFFF1] = 0x10;
    let mut p = Spc700::default();
    p.pc = 0xFFF0;
    p.psw.z = true;
    assert_eq!(p.step(&mut ram), Ok(()));
    assert_eq!(p.pc, 0x0002);
}

#[test]
fn wdc65816_push_then_pull_restores_the_accumulator() {
    let mut ram = ram_with(&[0x48, 0x68]);
    let mut p = Wdc65816::default();
    p.p.e = true;
    p.p.m = true;
    p.a = 0x80;
    p.s = 0x01FF;
    p.step(&mut ram);
    assert_eq!(p.s, 0x01FE);
    assert_eq!(ram.bytes[0x01FF], 0x80);
    p.a = 0;
    p.step(&mut ram);
    assert_eq!(p.a, 0x80);
    assert_eq!(p.s, 0x01FF);
    assert_eq!(p.pc, 2);
    assert!(p.p.n);
    assert!(!p.p.z);
}
