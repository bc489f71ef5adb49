use lib::snes::brr::{decode_block, decode_nibble, filter_sample};
use lib::snes::voice::Voice;

#[test]
fn nibbles_are_signed_and_scaled() {
    assert_eq!(decode_nibble(0x7, 12), 14336);
    assert_eq!(decode_nibble(0x8, 12), -16384);
    assert_eq!(decode_nibble(0xF, 0), -1);
    assert_eq!(decode_nibble(0x1, 0), 0);
    assert_eq!(decode_nibble(0x3, 4), 24);
    assert_eq!(decode_nibble(0xC, 4), -32);
}

#[test]
fn large_shifts_keep_only_the_sign() {
    assert_eq!(decode_nibble(0x9, 13), -2048);
    assert_eq!(decode_nibble(0xF, 15), -2048);
    assert_eq!(decode_nibble(0x7, 15), 0);
    assert_eq!(decode_nibble(0x0, 14), 0);
}

#[test]
fn prediction_filters() {
    assert_eq!(filter_sample(100, 0, 500, 300), 100);
    assert_eq!(filter_sample(100, 1, 64, 0), 160);
    assert_eq!(filter_sample(0, 2, 100, 50), 143);
    assert_eq!(filter_sample(0, 3, 100, 50), 138);
}

#[test]
fn filtered_samples_wrap_to_sixteen_bits() {
    assert_eq!(filter_sample(16000, 1, 32767, 0), -18817);
}

#[test]
fn block_without_filter() {
    let data = [0x17, 0x8F, 0, 0, 0, 0, 0, 0];
    let r = decode_block(0xC0, &data, 5, 6);
    assert_eq!(r[0], 2048);
    assert_eq!(r[1], 14336);
    assert_eq!(r[2], -16384);
    assert_eq!(r[3], -2048);
    for i in 4..16 {
        assert_eq!(r[i], 0);
    }
}

#[test]
fn block_with_first_filter_uses_previous_samples() {
    // shift 0, filter 1: every nibble is 0, so each sample is the previous one
    // less a sixteenth.
    let data = [0u8; 8];
    let r = decode_block(0x04, &data, 160, 0);
    assert_eq!(r[0], 150);
    assert_eq!(r[1], 140);
    assert_eq!(r[2], 131);
}

fn sample_ram(head: u8) -> Vec<u8> {
    let mut ram = vec![0u8; 64];
    // directory entry of sample 1 at 0x10 + 4: start 0x0020, loop point 0x0030
    ram[0x14] = 0x20;
    ram[0x16] = 0x30;
    ram[0x20] = head;
    ram[0x21] = 0x17;
    ram[0x22] = 0x8F;
    ram
}

fn playing_voice() -> Voice {
    let mut v = Voice::new();
    v.write(4, 1);
    v.enabled = true;
    v
}

#[test]
fn looping_end_block_jumps_to_loop_point() {
    let ram = sample_ram(0xC3);
    let mut v = playing_voice();
    v.samples[3] = 77;
    v.load_block(0x10, &ram);
    assert_eq!(v.block_addr, Some(0x30));
    assert!(v.end_flag);
    assert!(v.enabled);
    assert_eq!(v.prev_sample_data[3], 77);
    assert_eq!(v.samples[0], 2048);
    assert_eq!(v.samples[2], -16384);
}

#[test]
fn final_end_block_stops_the_voice() {
    let ram = sample_ram(0xC1);
    let mut v = playing_voice();
    v.load_block(0x10, &ram);
    assert_eq!(v.block_addr, None);
    assert!(v.end_flag);
    assert!(!v.enabled);
}

#[test]
fn plain_block_moves_to_the_next() {
    let ram = sample_ram(0xC0);
    let mut v = playing_voice();
    v.load_block(0x10, &ram);
    assert_eq!(v.block_addr, Some(0x29));
    assert!(!v.end_flag);
    assert!(v.enabled);
}

#[test]
fn counter_wraps_at_sixteen_bits() {
    let mut v = playing_voice();
    v.sample_pitch = 0x1000;
    v.counter = 0xF000;
    assert!(v.step_counter(0));
    assert_eq!(v.counter, 0);
    assert!(!v.step_counter(0));
    assert_eq!(v.counter, 0x1000);
}

#[test]
fn pitch_modulation_scales_the_step() {
    let mut v = playing_voice();
    v.sample_pitch = 0x1000;
    v.pitch_mod_enabled = true;
    // (0x1000 * ((0x4000 >> 4) + 0x400)) >> 10 = 0x2000
    assert!(!v.step_counter(0x4000));
    assert_eq!(v.counter, 0x2000);
    // a very negative previous output clamps the step to 0
    assert!(!v.step_counter(-0x8000));
    assert_eq!(v.counter, 0x2000);
}

#[test]
fn advancing_a_voice_loads_when_the_position_wraps() {
    let ram = sample_ram(0xC0);
    let mut v = playing_voice();
    v.sample_pitch = 1;
    v.counter = 0xFFFF;
    v.advance_sample(0x10, 0, &ram);
    assert_eq!(v.counter, 0);
    assert_eq!(v.block_addr, Some(0x29));
    assert_eq!(v.samples[1], 14336);
}

#[test]
fn disabled_voice_does_not_move() {
    let ram = sample_ram(0xC0);
    let mut v = Voice::new();
    v.sample_pitch = 0x100;
    v.advance_sample(0x10, 0, &ram);
    assert_eq!(v.counter, 0);
    assert_eq!(v.block_addr, None);
}

use lib::snes::voice::{AdsrStage, GainMode};

fn tables() -> (Vec<usize>, Vec<usize>) {
    // every rate but 0 moves the envelope at every clock
    let mut period = vec![1usize; 32];
    period[0] = 0;
    (period, vec![0usize; 32])
}

#[test]
fn gain_modes_move_the_envelope() {
    let (period, offset) = tables();
    let mut v = Voice::new();
    v.gain_mode = GainMode::LinearIncrease;
    v.gain_rate = 1;
    v.clock(&period, &offset, 5, 0x7FF);
    assert_eq!(v.envelope, 32);
    assert_eq!(v.period_counter, 0x77FF);
    v.clock(&period, &offset, 5, 0x7FF);
    assert_eq!(v.envelope, 64);
    assert_eq!(v.period_counter, 0x77FE);
    // the envelope stops at its maximum
    v.envelope = 0x7F0;
    v.clock(&period, &offset, 5, 0x7FF);
    assert_eq!(v.envelope, 0x7FF);
    // exponential decrease takes 1/256 of one less, plus 1
    v.gain_mode = GainMode::ExponentialDecrease;
    v.envelope = 0x100;
    v.clock(&period, &offset, 5, 0x7FF);
    assert_eq!(v.envelope, 0xFF);
    // rate 0 never moves
    v.gain_rate = 0;
    v.clock(&period, &offset, 5, 0x7FF);
    assert_eq!(v.envelope, 0xFF);
}

#[test]
fn adsr_stages_move_the_envelope() {
    let (period, offset) = tables();
    let mut v = Voice::new();
    v.adsr_enabled = true;
    v.attack_rate = 0x1F;
    v.envelope = 0x400;
    v.clock(&period, &offset, 5, 0x7FF);
    assert_eq!(v.envelope, 0x7FF);
    assert!(matches!(v.adsr_stage, AdsrStage::Decay));
    v.decay_rate = 0x10;
    v.sustain_level = 0x200;
    v.clock(&period, &offset, 5, 0x7FF);
    assert_eq!(v.envelope, 0x7F6);
    assert!(matches!(v.adsr_stage, AdsrStage::Decay));
    v.adsr_stage = AdsrStage::Release;
    v.envelope = 100;
    v.clock(&period, &offset, 5, 0x7FF);
    assert_eq!(v.envelope, 92);
}

#[test]
fn gaussian_interpolation_weights_the_samples() {
    let mut gauss = vec![0i16; 0x200];
    gauss[0x100] = 1024;
    let mut v = Voice::new();
    v.counter = 0x3000;
    v.samples[2] = 1000;
    assert_eq!(v.interpolate(&gauss), 500);
    v.samples[2] = -1001;
    assert_eq!(v.interpolate(&gauss), -501);
    // before the first sample of the block the previous block is used
    v.counter = 0;
    v.prev_sample_data[15] = 600;
    assert_eq!(v.interpolate(&gauss), 300);
}

#[test]
fn next_sample_of_a_silent_voice() {
    let (period, offset) = tables();
    let mut gauss = vec![0i16; 0x200];
    gauss[0x100] = 1024;
    let mut v = Voice::new();
    v.prev_sample_data[15] = 600;
    let mut prev = 7;
    let ram = vec![0u8; 64];
    assert_eq!(v.next_sample(0, &mut prev, &ram, &gauss, &period, &offset, 5, 0x7FF), 300);
    assert_eq!(prev, 300);
    assert_eq!(v.counter, 0);
    assert_eq!(v.envelope, 0);
}

#[test]
fn fixed_gain_keeps_the_envelope() {
    let (period, offset) = tables();
    let mut v = Voice::new();
    v.gain_mode = GainMode::Fixed;
    v.gain_rate = 1;
    v.envelope = 0x123;
    v.volume = [5, -5];
    v.clock(&period, &offset, 5, 0x7FF);
    assert_eq!(v.envelope, 0x123);
    assert_eq!(v.volume, [5, -5]);
    assert_eq!(v.period_counter, 0x77FF);
    // whatever the mode, the envelope stays within its maximum
    v.gain_mode = GainMode::BentIncrease;
    v.envelope = 0x100;
    v.clock(&period, &offset, 5, 0x108);
    assert_eq!(v.envelope, 0x108);
}
