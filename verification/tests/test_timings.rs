use lib::bus_event::BusEvent;
use lib::wdc65816::processor::{HasAddressBus, Processor};

struct SimpleMemory {
    memory: Vec<u8>,
    num_cycles: usize,
}

impl Default for SimpleMemory {
    fn default() -> Self {
        SimpleMemory { memory: vec![0; 0x10_0000], num_cycles: 0 }
    }
}

impl HasAddressBus for SimpleMemory {
    fn bus_events(&self) -> vstd::seq::Seq<BusEvent> {
        panic!("the bus event log only exists in proofs")
    }
    fn origin(&self) -> Self {
        panic!("the traced origin only exists in proofs")
    }
    fn traced(&self) -> bool {
        panic!("tracing only exists in proofs")
    }
    fn read(&mut self, address: usize) -> u8 {
        self.num_cycles += 1;
        self.memory[address]
    }
    fn write(&mut self, address: usize, value: u8) {
        self.num_cycles += 1;
        self.memory[address] = value
    }
    fn io(&mut self) {
        self.num_cycles += 1;
    }
}

const ADC_A: u8 = 0x6D;
const ADC_AL: u8 = 0x6F;
const ADC_ALX: u8 = 0x7F;
const ADC_AX: u8 = 0x7D;
const ADC_AY: u8 = 0x79;
const ADC_D: u8 = 0x65;
const ADC_DI: u8 = 0x72;
const ADC_DIL: u8 = 0x67;
const ADC_DILY: u8 = 0x77;
const ADC_DIX: u8 = 0x61;
const ADC_DIY: u8 = 0x71;
const ADC_DX: u8 = 0x75;
const ADC_I: u8 = 0x69;
const ADC_SR: u8 = 0x63;
const ADC_SRIY: u8 = 0x73;
const AND_A: u8 = 0x2D;
const AND_AL: u8 = 0x2F;
const AND_ALX: u8 = 0x3F;
const AND_AX: u8 = 0x3D;
const AND_AY: u8 = 0x39;
const AND_D: u8 = 0x25;
const AND_DI: u8 = 0x32;
const AND_DIL: u8 = 0x27;
const AND_DILY: u8 = 0x37;
const AND_DIX: u8 = 0x21;
const AND_DIY: u8 = 0x31;
const AND_DX: u8 = 0x35;
const AND_I: u8 = 0x29;
const AND_SR: u8 = 0x23;
const AND_SRIY: u8 = 0x33;
const ASL_A: u8 = 0x0E;
const ASL_ACC: u8 = 0x0A;
const ASL_AX: u8 = 0x1E;
const ASL_D: u8 = 0x06;
const ASL_DX: u8 = 0x16;
const BCC: u8 = 0x90;
const BCS: u8 = 0xB0;
const BEQ: u8 = 0xF0;
const BIT_A: u8 = 0x2C;
const BIT_AX: u8 = 0x3C;
const BIT_D: u8 = 0x24;
const BIT_DX: u8 = 0x34;
const BIT_I: u8 = 0x89;
const BMI: u8 = 0x30;
const BNE: u8 = 0xD0;
const BPL: u8 = 0x10;
const BRA: u8 = 0x80;
const BRK: u8 = 0x00;
const BRL: u8 = 0x82;
const BVC: u8 = 0x50;
const BVS: u8 = 0x70;
const CLC: u8 = 0x18;
const CLD: u8 = 0xD8;
const CLI: u8 = 0x58;
const CLV: u8 = 0xB8;
const CMP_A: u8 = 0xCD;
const CMP_AL: u8 = 0xCF;
const CMP_ALX: u8 = 0xDF;
const CMP_AX: u8 = 0xDD;
const CMP_AY: u8 = 0xD9;
const CMP_D: u8 = 0xC5;
const CMP_DI: u8 = 0xD2;
const CMP_DIL: u8 = 0xC7;
const CMP_DILY: u8 = 0xD7;
const CMP_DIX: u8 = 0xC1;
const CMP_DIY: u8 = 0xD1;
const CMP_DX: u8 = 0xD5;
const CMP_I: u8 = 0xC9;
const CMP_SR: u8 = 0xC3;
const CMP_SRIY: u8 = 0xD3;
const COP: u8 = 0x02;
const CPX_A: u8 = 0xEC;
const CPX_D: u8 = 0xE4;
const CPX_I: u8 = 0xE0;
const CPY_A: u8 = 0xCC;
const CPY_D: u8 = 0xC4;
const CPY_I: u8 = 0xC0;
const DEC_A: u8 = 0xCE;
const DEC_ACC: u8 = 0x3A;
const DEC_AX: u8 = 0xDE;
const DEC_D: u8 = 0xC6;
const DEC_DX: u8 = 0xD6;
const DEX: u8 = 0xCA;
const DEY: u8 = 0x88;
const EOR_A: u8 = 0x4D;
const EOR_AL: u8 = 0x4F;
const EOR_ALX: u8 = 0x5F;
const EOR_AX: u8 = 0x5D;
const EOR_AY: u8 = 0x59;
const EOR_D: u8 = 0x45;
const EOR_DI: u8 = 0x52;
const EOR_DIL: u8 = 0x47;
const EOR_DILY: u8 = 0x57;
const EOR_DIX: u8 = 0x41;
const EOR_DIY: u8 = 0x51;
const EOR_DX: u8 = 0x55;
const EOR_I: u8 = 0x49;
const EOR_SR: u8 = 0x43;
const EOR_SRIY: u8 = 0x53;
const INC_A: u8 = 0xEE;
const INC_ACC: u8 = 0x1A;
const INC_AX: u8 = 0xFE;
const INC_D: u8 = 0xE6;
const INC_DX: u8 = 0xF6;
const INX: u8 = 0xE8;
const INY: u8 = 0xC8;
const JMP_A: u8 = 0x4C;
const JMP_AI: u8 = 0x6C;
const JMP_AIL: u8 = 0xDC;
const JMP_AIX: u8 = 0x7C;
const JMP_AL: u8 = 0x5C;
const JSL: u8 = 0x22;
const JSR_A: u8 = 0x20;
const JSR_AIX: u8 = 0xFC;
const LDA_A: u8 = 0xAD;
const LDA_AL: u8 = 0xAF;
const LDA_ALX: u8 = 0xBF;
const LDA_AX: u8 = 0xBD;
const LDA_AY: u8 = 0xB9;
const LDA_D: u8 = 0xA5;
const LDA_DI: u8 = 0xB2;
const LDA_DIL: u8 = 0xA7;
const LDA_DILY: u8 = 0xB7;
const LDA_DIX: u8 = 0xA1;
const LDA_DIY: u8 = 0xB1;
const LDA_DX: u8 = 0xB5;
const LDA_I: u8 = 0xA9;
const LDA_SR: u8 = 0xA3;
const LDA_SRIY: u8 = 0xB3;
const LDX_A: u8 = 0xAE;
const LDX_AY: u8 = 0xBE;
const LDX_D: u8 = 0xA6;
const LDX_DY: u8 = 0xB6;
const LDX_I: u8 = 0xA2;
const LDY_A: u8 = 0xAC;
const LDY_AX: u8 = 0xBC;
const LDY_D: u8 = 0xA4;
const LDY_DX: u8 = 0xB4;
const LDY_I: u8 = 0xA0;
const LSR_A: u8 = 0x4E;
const LSR_ACC: u8 = 0x4A;
const LSR_AX: u8 = 0x5E;
const LSR_D: u8 = 0x46;
const LSR_DX: u8 = 0x56;
const MVN: u8 = 0x54;
const MVP: u8 = 0x44;
const NOP: u8 = 0xEA;
const ORA_A: u8 = 0x0D;
const ORA_AL: u8 = 0x0F;
const ORA_ALX: u8 = 0x1F;
const ORA_AX: u8 = 0x1D;
const ORA_AY: u8 = 0x19;
const ORA_D: u8 = 0x05;
const ORA_DI: u8 = 0x12;
const ORA_DIL: u8 = 0x07;
const ORA_DILY: u8 = 0x17;
const ORA_DIX: u8 = 0x01;
const ORA_DIY: u8 = 0x11;
const ORA_DX: u8 = 0x15;
const ORA_I: u8 = 0x09;
const ORA_SR: u8 = 0x03;
const ORA_SRIY: u8 = 0x13;
const PEA: u8 = 0xF4;
const PEI: u8 = 0xD4;
const PER: u8 = 0x62;
const PHA: u8 = 0x48;
const PHB: u8 = 0x8B;
const PHD: u8 = 0x0B;
const PHK: u8 = 0x4B;
const PHP: u8 = 0x08;
const PHX: u8 = 0xDA;
const PHY: u8 = 0x5A;
const PLA: u8 = 0x68;
const PLB: u8 = 0xAB;
const PLD: u8 = 0x2B;
const PLP: u8 = 0x28;
const PLX: u8 = 0xFA;
const PLY: u8 = 0x7A;
const REP_I: u8 = 0xC2;
const ROL_A: u8 = 0x2E;
const ROL_ACC: u8 = 0x2A;
const ROL_AX: u8 = 0x3E;
const ROL_D: u8 = 0x26;
const ROL_DX: u8 = 0x36;
const ROR_A: u8 = 0x6E;
const ROR_ACC: u8 = 0x6A;
const ROR_AX: u8 = 0x7E;
const ROR_D: u8 = 0x66;
const ROR_DX: u8 = 0x76;
const RTI: u8 = 0x40;
const RTL: u8 = 0x6B;
const RTS: u8 = 0x60;
const SBC_A: u8 = 0xED;
const SBC_AL: u8 = 0xEF;
const SBC_ALX: u8 = 0xFF;
const SBC_AX: u8 = 0xFD;
const SBC_AY: u8 = 0xF9;
const SBC_D: u8 = 0xE5;
const SBC_DI: u8 = 0xF2;
const SBC_DIL: u8 = 0xE7;
const SBC_DILY: u8 = 0xF7;
const SBC_DIX: u8 = 0xE1;
const SBC_DIY: u8 = 0xF1;
const SBC_DX: u8 = 0xF5;
const SBC_I: u8 = 0xE9;
const SBC_SR: u8 = 0xE3;
const SBC_SRIY: u8 = 0xF3;
const SEC: u8 = 0x38;
const SED: u8 = 0xF8;
const SEI: u8 = 0x78;
const SEP_I: u8 = 0xE2;
const STA_A: u8 = 0x8D;
const STA_AL: u8 = 0x8F;
const STA_ALX: u8 = 0x9F;
const STA_AX: u8 = 0x9D;
const STA_AY: u8 = 0x99;
const STA_D: u8 = 0x85;
const STA_DI: u8 = 0x92;
const STA_DIL: u8 = 0x87;
const STA_DILY: u8 = 0x97;
const STA_DIX: u8 = 0x81;
const STA_DIY: u8 = 0x91;
const STA_DX: u8 = 0x95;
const STA_SR: u8 = 0x83;
const STA_SRIY: u8 = 0x93;
const STP: u8 = 0xDB;
const STX_A: u8 = 0x8E;
const STX_D: u8 = 0x86;
const STX_DY: u8 = 0x96;
const STY_A: u8 = 0x8C;
const STY_D: u8 = 0x84;
const STY_DX: u8 = 0x94;
const STZ_A: u8 = 0x9C;
const STZ_AX: u8 = 0x9E;
const STZ_D: u8 = 0x64;
const STZ_DX: u8 = 0x74;
const TAX: u8 = 0xAA;
const TAY: u8 = 0xA8;
const TCD: u8 = 0x5B;
const TCS: u8 = 0x1B;
const TDC: u8 = 0x7B;
const TRB_A: u8 = 0x1C;
const TRB_D: u8 = 0x14;
const TSB_A: u8 = 0x0C;
const TSB_D: u8 = 0x04;
const TSC: u8 = 0x3B;
const TSX: u8 = 0xBA;
const TXA: u8 = 0x8A;
const TXS: u8 = 0x9A;
const TXY: u8 = 0x9B;
const TYA: u8 = 0x98;
const TYX: u8 = 0xBB;
const WAI: u8 = 0xCB;
const WDM: u8 = 0x42;
const XBA: u8 = 0xEB;
const XCE: u8 = 0xFB;

/// Returns the number of cycles
fn get_timings_for_opcode(opcode: u8, p: &Processor) -> usize {
    // Offsets
    // A/X/Y is 16bit
    let a = if p.p.a_is_16bit() || p.p.xy_is_16bit() {
        1
    } else {
        0
    };
    // DL is not 0
    let d = if p.dl != 0 { 1 } else { 0 };
    // Emulation mode
    let e = if p.p.e { 1 } else { 0 };
    // Page cross
    let pc = 0;
    match opcode {
        // 1a. Absolute a
        ADC_A | AND_A | BIT_A | CMP_A | CPX_A | CPY_A | EOR_A | LDA_A | LDX_A | LDY_A | ORA_A
        | SBC_A | STA_A | STX_A | STY_A | STZ_A => 4 + a,
        // 1b. Absolute a
        JMP_A => 3,
        // 1c. Absolute a
        JSR_A => 6,
        // 1d. Absolute (R-M-W) a
        ASL_A | DEC_A | INC_A | LSR_A | ROL_A | ROR_A | TRB_A | TSB_A => 6 + 2 * a,
        // 2a. Absolute Indexed Indirect (a,x)
        JMP_AIX => 6,
        // 2b. Absolute Indexed Indirect (a,x)
        JSR_AIX => 8,
        // 3a. Absolute Indirect (a)
        JMP_AIL => 6,
        // 3b. Absolute Indirect (a)
        JMP_AI => 5,
        // 4a. Absolute Long al
        ADC_AL | AND_AL | CMP_AL | EOR_AL | LDA_AL | ORA_AL | SBC_AL | STA_AL => 5 + a,
        // 4b. Absolute Long (JUMP) al
        JMP_AL => 4,
        // 4c. Absolute Long (JUMP to Subroutine Long) al
        JSL => 8,
        // 5. Absolute Long,X al,x
        ADC_ALX | AND_ALX | CMP_ALX | EOR_ALX | LDA_ALX | ORA_ALX | SBC_ALX | STA_ALX => 5 + a,
        // 6a Absolute, X a, x
        ADC_AX | AND_AX | BIT_AX | CMP_AX | EOR_AX | LDA_AX | LDY_AX | ORA_AX | SBC_AX | STA_AX
        | STZ_AX => 4 + a + pc,
        // 6b Absolute, X(R-M-W) a,x
        ASL_AX | DEC_AX | INC_AX | LSR_AX | ROL_AX | ROR_AX => 7 + 2 * a,
        // 7. Absolute, Y a,y
        ADC_AY | AND_AY | CMP_AY | EOR_AY | LDA_AY | LDX_AY | ORA_AY | SBC_AY | STA_AY => {
            4 + a + pc
        }
        // 8. Accumulator A
        ASL_ACC | DEC_ACC | INC_ACC | LSR_ACC | ROL_ACC | ROR_ACC => 2,
        // 9a. Block Move Negative
        // 9b. Block Move Positive
        MVN | MVP => 7,
        // 10a. Direct d
        ADC_D | AND_D | BIT_D | CMP_D | CPX_D | CPY_D | EOR_D | LDA_D | LDX_D | LDY_D | ORA_D
        | SBC_D | STA_D | STX_D | STY_D | STZ_D => 3 + a + d,
        // 10b. Direct (R-M-W)d
        ASL_D | DEC_D | INC_D | LSR_D | ROL_D | ROR_D | TRB_D | TSB_D => 5 + 2 * a + d,
        // 11. Direct Indexed Indirect (d,x)
        ADC_DIX | AND_DIX | CMP_DIX | EOR_DIX | LDA_DIX | ORA_DIX | SBC_DIX | STA_DIX => 6 + a + d,
        // 12. Direct Indirect (d)
        ADC_DI | AND_DI | CMP_DI | EOR_DI | LDA_DI | ORA_DI | SBC_DI | STA_DI => 5 + a + d,
        // 13. Direct Indirect Indexed (d),y
        ADC_DIY | AND_DIY | CMP_DIY | EOR_DIY | LDA_DIY | ORA_DIY | SBC_DIY | STA_DIY => {
            5 + a + d + pc
        }
        // 14. Direct Indirect Indexed Long [d],y
        ADC_DILY | AND_DILY | CMP_DILY | EOR_DILY | LDA_DILY | ORA_DILY | SBC_DILY | STA_DILY => {
            6 + a + d
        }
        // 15. Direct Indirect Long [d]
        ADC_DIL | AND_DIL | CMP_DIL | EOR_DIL | LDA_DIL | ORA_DIL | SBC_DIL | STA_DIL => 6 + a + d,
        // 16a. Direct, X d,x
        ADC_DX | AND_DX | BIT_DX | CMP_DX | EOR_DX | LDA_DX | LDY_DX | ORA_DX | SBC_DX | STA_DX
        | STY_DX | STZ_DX => 4 + a + d,
        // 16b. Direct, X (R-M-W) d,x
        ASL_DX | DEC_DX | INC_DX | LSR_DX | ROL_DX | ROR_DX => 6 + 2 * a + d,
        // 17. Direct, Y d,y
        LDX_DY | STX_DY => 4 + a + d,
        // 18.Immediate #
        ADC_I | AND_I | BIT_I | CMP_I | CPX_I | CPY_I | EOR_I | LDA_I | LDX_I | LDY_I | ORA_I
        | SBC_I => 2 + a,
        REP_I | SEP_I => 3,
        // 19a. Implied i
        CLC | CLD | CLI | CLV | DEX | DEY | INX | INY | NOP | SEC | SED | SEI | TAX | TAY | TCD
        | TCS | TDC | TSC | TSX | TXA | TXS | TXY | TYA | TYX | XCE => 2,
        // 19b. Implied i
        XBA => 3,
        STP => unreachable!(),
        WAI => unreachable!(),
        // 20. Relative r (todo)
        BCC => 2 + usize::from(!p.p.c),
        BCS => 2 + usize::from(p.p.c),
        BEQ => 2 + usize::from(p.p.z),
        BNE => 2 + usize::from(!p.p.z),
        BMI => 2 + usize::from(p.p.n),
        BPL => 2 + usize::from(!p.p.n),
        BVC => 2 + usize::from(!p.p.v),
        BVS => 2 + usize::from(p.p.v),
        BRA => 3,
        // 21. Relative Long rl
        BRL => 4,
        // 22b. Stack s
        PLA | PLB | PLD | PLX | PLY | PLP => 4 + a,
        PHA | PHB | PHD | PHK | PHX | PHY => 3 + a,
        PHP => 3 + a,
        PEA => 5,
        PEI => 6 + d,
        PER => 6,
        RTI => 7 - e,
        RTS => 6,
        RTL => 6,
        BRK | COP => 8 - e,
        // 23. Stack Relative d,s
        ADC_SR | AND_SR | CMP_SR | EOR_SR | LDA_SR | ORA_SR | SBC_SR | STA_SR => 4 + a,
        // 24. Stack Relative Indirect Indexed (d,s),y
        ADC_SRIY | AND_SRIY | CMP_SRIY | EOR_SRIY | LDA_SRIY | ORA_SRIY | SBC_SRIY | STA_SRIY => {
            7 + a
        }
        _ => unreachable!("Missing timing information for {:02X}", opcode),
    }
}

#[test]
fn test_opcode_timings() {
    const SKIP_OPCODES: &[u8] = &[WDM, WAI, STP];
    (0..=0xFFu8).for_each(|opc| {
        if !SKIP_OPCODES.contains(&opc) {
            [8, 16].into_iter().for_each(|nbits| {
                let mut p = Processor::new();
                // Set 8 or 16 bit
                p.p.m = nbits == 8;
                p.p.xb = nbits == 8;
                let mut memory = SimpleMemory::default();
                // Set opcode
                memory.memory[0] = opc;
                // Execute
                p.step(&mut memory);
                // Assert counts
                let cycles = get_timings_for_opcode(opc, &p);
                assert_eq!(
                    cycles, memory.num_cycles,
                    "Number cycles for opcode {:02X}",
                    opc
                );
            })
        }
    })
}
