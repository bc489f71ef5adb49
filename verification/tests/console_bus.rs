use lib::snes::cartridge::Cartridge;
use lib::snes::console::ExternalArchitecture;
use lib::snes::cpu::Cpu;
use lib::snes::input_port::InputPort;
use lib::snes::machine::Console;

/// A 32 KiB LoRom image full of NOPs whose reset vector points at 0x8000.
fn nop_rom() -> Vec<u8> {
    let mut data = vec![0xEAu8; 0x8000];
    for i in 0x7FC0..0x7FE0 {
        data[i] = 0;
    }
    data[0x7FFC] = 0x00;
    data[0x7FFD] = 0x80;
    data
}

fn bus() -> ExternalArchitecture {
    ExternalArchitecture::new(Cartridge::from_data(&nop_rom()))
}

#[test]
fn work_ram_is_mirrored_in_low_banks() {
    let mut b = bus();
    assert_eq!(b.write_byte(0x7E0010, 0x42), 8);
    assert_eq!(b.read_byte(0x000010), (0x42, 6));
    assert_eq!(b.read_byte(0x7E0010), (0x42, 8));
    assert_eq!(b.write_byte(0x001FFF, 0x24), 8);
    assert_eq!(b.read_byte(0x7E1FFF), (0x24, 8));
}

#[test]
fn rom_reads_and_fast_rom_timing() {
    let mut b = bus();
    assert_eq!(b.read_byte(0x008000), (0xEA, 8));
    assert_eq!(b.read_byte(0x00FFFD), (0x80, 8));
    assert_eq!(b.read_byte(0x808000), (0xEA, 8));
    assert_eq!(b.write_byte(0x420D, 0x01), 6);
    assert!(b.fast_rom_enabled);
    assert_eq!(b.read_byte(0x808000), (0xEA, 6));
    assert_eq!(b.read_byte(0x008000), (0xEA, 8));
    assert_eq!(b.write_byte(0x808000, 0x00), 6);
    assert_eq!(b.write_byte(0x008000, 0x00), 8);
}

#[test]
fn multiplication_and_division_through_the_bus() {
    let mut b = bus();
    b.write_byte(0x4202, 7);
    b.write_byte(0x4203, 6);
    assert_eq!(b.read_byte(0x4216), (42, 6));
    assert_eq!(b.read_byte(0x4217), (0, 6));
    b.write_byte(0x4204, 100);
    b.write_byte(0x4205, 0);
    b.write_byte(0x4206, 7);
    assert_eq!(b.read_byte(0x4214), (14, 6));
    assert_eq!(b.read_byte(0x4216), (2, 6));
}

#[test]
fn controller_bytes() {
    let mut b = bus();
    assert_eq!(b.read_byte(0x4218), (0, 12));
    b.input_ports[0] = InputPort::StandardController {
        a: true,
        b: true,
        x: false,
        y: false,
        up: true,
        left: false,
        right: false,
        down: false,
        start: false,
        select: false,
        r: true,
        l: false,
    };
    assert_eq!(b.read_byte(0x4218), (0x90, 12));
    assert_eq!(b.read_byte(0x4219), (0x88, 12));
    b.input_ports[1] = InputPort::Empty;
    b.open_bus_value = 0x3C;
    assert_eq!(b.read_byte(0x421A), (0x3C, 12));
}

#[test]
fn timer_targets_keep_their_quirk() {
    let mut b = bus();
    b.write_byte(0x4207, 0x34);
    assert_eq!(b.h_timer, 0x34);
    b.write_byte(0x4208, 0x01);
    assert_eq!(b.h_timer, 0x35);
    b.write_byte(0x4209, 0x10);
    b.write_byte(0x420A, 0x00);
    assert_eq!(b.v_timer, 0x10);
    b.write_byte(0x4200, 0x80 | 0x20);
    assert!(b.nmi_enabled);
}

#[test]
fn dma_registers_read_back() {
    let mut b = bus();
    b.write_byte(0x4312, 0xCD);
    b.write_byte(0x4313, 0xAB);
    b.write_byte(0x4314, 0x7E);
    assert_eq!(b.read_byte(0x4312), (0xCD, 6));
    assert_eq!(b.read_byte(0x4313), (0xAB, 6));
    assert_eq!(b.read_byte(0x4314), (0x7E, 6));
    assert_eq!(b.dma_channels[1].hdma_table_addr, 0xABCD);
    b.open_bus_value = 0x11;
    assert_eq!(b.read_byte(0x4382), (0x11, 6));
    b.write_byte(0x431A, 0x85);
    assert_eq!(b.dma_channels[1].hdma_line_counter, 5);
    assert!(b.dma_channels[1].hdma_repeat);
}

#[test]
fn dma_copies_work_ram_to_cgram() {
    let mut b = bus();
    b.write_byte(0x7E0000, 0x34);
    b.write_byte(0x7E0001, 0x12);
    b.write_byte(0x2121, 0x00);
    b.write_byte(0x4300, 0x00);
    b.write_byte(0x4301, 0x22);
    b.write_byte(0x4302, 0x00);
    b.write_byte(0x4303, 0x00);
    b.write_byte(0x4304, 0x7E);
    b.write_byte(0x4305, 0x02);
    b.write_byte(0x4306, 0x00);
    b.write_byte(0x420B, 0x01);
    assert!(b.dma_channels[0].is_executing);
    let mut cpu = Cpu::default();
    let mut steps = 0;
    while b.dma_channels[0].is_executing && steps < 100 {
        cpu.step(&mut b);
        steps += 1;
    }
    assert!(!b.dma_channels[0].is_executing);
    assert_eq!(b.ppu.cgram[0], 0x1234);
    assert_eq!(b.dma_channels[0].byte_counter, 0);
    assert_eq!(b.dma_channels[0].src_addr, 2);
}

#[test]
fn console_starts_at_reset_vector() {
    let c = Console::with_cartridge(&nop_rom());
    assert_eq!(c.pc(), 0x8000);
    assert_eq!(c.opcode(), 0xEA);
    assert_eq!(c.read_byte_cpu(0x00FFFC), 0x00);
    assert!(c.cpu().p.e);
}

#[test]
fn console_runs_instructions() {
    let mut c = Console::with_cartridge(&nop_rom());
    c.advance_instructions(50);
    assert!(c.pc() > 0x8000);
    assert!(c.total_master_clocks() > 0);
}

#[test]
fn work_ram_write_leaves_other_bytes() {
    let mut b = bus();
    b.write_byte(0x7E0011, 0x99);
    b.write_byte(0x3F0010, 0x42);
    assert_eq!(b.read_byte(0x7E0010).0, 0x42);
    assert_eq!(b.read_byte(0x7E0011).0, 0x99);
    assert_eq!(b.read_byte(0x200011).0, 0x99);
    b.write_byte(0x7F0000, 0x17);
    assert_eq!(b.read_byte(0x7F0000).0, 0x17);
    assert_eq!(b.read_byte(0x000000).0, 0);
}

#[test]
fn cpu_registers_can_be_changed_in_place() {
    let mut c = Console {
        cpu: Cpu::default(),
        rest: bus(),
    };
    c.cpu_mut().pc = 0x1234;
    c.cpu_mut().a = 0x56;
    assert_eq!(c.cpu().pc, 0x1234);
    assert_eq!(c.cpu().a, 0x56);
}
