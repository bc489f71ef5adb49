use lib::snes::background::WindowMaskLogic;
use lib::snes::color_math::ColorBlendMode;
use lib::snes::dma::{AddressAdjustMode, Channel};
use lib::snes::math::Math;
use lib::snes::utils::{bit, color_to_rgb, from_direct_color, rgb_to_color};
use lib::snes::voice::{AdsrStage, ApuTimer, GainMode, Voice};
use lib::snes::window::WindowRegion;

#[test]
fn bits_of_a_byte() {
    assert!(bit(0b0000_0100, 2));
    assert!(!bit(0b0000_0100, 3));
    assert!(bit(0x80, 7));
}

#[test]
fn colors_split_and_join() {
    assert_eq!(color_to_rgb(0x7FFF), [31, 31, 31]);
    assert_eq!(color_to_rgb(0b0_10101_00110_00011), [3, 6, 21]);
    assert_eq!(rgb_to_color([3, 6, 21]), 0b0_10101_00110_00011);
    for c in [0u16, 1, 0x1234, 0x7FFF, 0x4210] {
        assert_eq!(rgb_to_color(color_to_rgb(c)), c);
    }
}

#[test]
fn direct_color_layout() {
    // BBGGGRRR = 10 011 101, palette bgr = 111
    assert_eq!(
        from_direct_color(0b10_011_101, 0b111),
        (5 << 2) | 0x02 | (0b011_000 << 4) | 0x40 | (0b10 << 13) | 0x1000
    );
    // each palette bit lands in its own component: r in red, g in green, b in blue
    assert_eq!(from_direct_color(0, 0b001), 0x0002);
    assert_eq!(from_direct_color(0, 0b010), 0x0040);
    assert_eq!(from_direct_color(0, 0b100), 0x1000);
}

#[test]
fn window_logic_and_regions() {
    assert!(WindowMaskLogic::from(0).compute(true, false));
    assert!(!WindowMaskLogic::from(1).compute(true, false));
    assert!(WindowMaskLogic::from(2).compute(true, false));
    assert!(WindowMaskLogic::from(3).compute(true, true));
    assert!(!WindowRegion::from(0).compute(true));
    assert!(!WindowRegion::from(1).compute(true));
    assert!(WindowRegion::from(1).compute(false));
    assert!(WindowRegion::from(2).compute(true));
    assert!(WindowRegion::from(3).compute(false));
}

#[test]
fn color_blending() {
    assert_eq!(ColorBlendMode::from(0).compute(0x0421, 0x0421), 0x0842);
    assert_eq!(ColorBlendMode::from(0).compute(0x7FFF, 0x0421), 0x7FFF);
    assert_eq!(ColorBlendMode::from(2).compute(0x0421, 0x0842), 0);
    assert_eq!(ColorBlendMode::from(1).compute(0x0842, 0x0000), 0x0421);
}

#[test]
fn math_unit_divides_by_zero() {
    let mut m = Math::default();
    m.write_byte(0x4204, 0x34);
    m.write_byte(0x4205, 0x12);
    m.write_byte(0x4206, 0);
    assert_eq!(m.read_byte(0x4214), 0xFF);
    assert_eq!(m.read_byte(0x4215), 0xFF);
    assert_eq!(m.read_byte(0x4216), 0x34);
    assert_eq!(m.read_byte(0x4217), 0x12);
}

#[test]
fn dma_channel_helpers() {
    let mut d = Channel::default();
    d.transfer_pattern_index = 3;
    assert_eq!(d.transfer_pattern(), vec![0, 0, 1, 1]);
    d.src_bank = 0x7E;
    d.src_addr = 0xFFFF;
    assert_eq!(d.full_src_addr(), 0x7EFFFF);
    d.inc_src_addr();
    assert_eq!(d.src_addr, 0);
    d.adjust_mode = AddressAdjustMode::Decrement;
    d.inc_src_addr();
    assert_eq!(d.src_addr, 0xFFFF);
    d.byte_counter = 7;
    assert_eq!(d.get_num_bytes(), 7);
    d.hdma_enable = true;
    assert!(d.is_hdma());
    assert_eq!(d.get_num_bytes(), 4);
    d.current_hdma_table_addr = 0x10;
    d.indirect = false;
    d.inc_table_addr();
    assert_eq!(d.current_hdma_table_addr, 0x15);
    d.hdma_table_bank = 2;
    assert_eq!(d.current_hdma_table_addr(1), 0x20016);
}

#[test]
fn voice_registers() {
    let mut v = Voice::new();
    v.write(0x00, 0x7F);
    v.write(0x01, 0x80);
    assert_eq!(v.volume, [127, -128]);
    v.write(0x02, 0x34);
    v.write(0x03, 0xFF);
    assert_eq!(v.sample_pitch, 0x3F34);
    v.write(0x04, 0x10);
    assert_eq!(v.sample_src, 0x40);
    v.write(0x05, 0b1101_0011);
    assert!(v.adsr_enabled);
    assert_eq!(v.decay_rate, 2 * 5 + 0x10);
    assert_eq!(v.attack_rate, 2 * 3 + 1);
    v.write(0x06, 0b1110_0101);
    assert_eq!(v.sustain_rate, 5);
    assert_eq!(v.sustain_level, 8 * 0x200);
    v.write(0x07, 0x25);
    assert_eq!(v.envelope, 0x250);
    assert!(matches!(v.gain_mode, GainMode::Fixed));
    v.write(0x07, 0b1110_0011);
    assert_eq!(v.gain_rate, 3);
    assert!(matches!(v.gain_mode, GainMode::BentIncrease));
    assert_eq!(v.read(0x00), 0x7F);
    assert_eq!(v.read(0x01), 0x7F);
    assert_eq!(v.read(0x10), 0);
}

#[test]
fn adsr_stage_names_and_timer() {
    assert_eq!(AdsrStage::Attack.to_string(), "Attack");
    assert_eq!(AdsrStage::Release.to_string(), "Release");
    let t = ApuTimer::new();
    assert!(!t.enabled);
    assert_eq!(t.timer_target, 0);
}

use lib::wdc65816::flag::Flag;

#[test]
fn flags_compare_with_booleans_and_numbers() {
    let set = Flag::from_bool(true);
    let clear = Flag::from_u32(0);
    assert!(set.eq_bool(true));
    assert!(!set.ne_bool(true));
    assert!(set.ne_bool(false));
    assert!(clear.eq_bool(false));
    assert!(clear.ne_bool(true));
    assert!(set.eq_u32(1));
    assert!(set.ne_u32(0));
    assert!(!clear.ne_u32(0));
    assert_eq!(set.bitand(clear).as_u32(), 0);
    assert_eq!(set.bitand(set).as_u32(), 1);
}
