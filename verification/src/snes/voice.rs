use vstd::prelude::*;

use crate::snes::brr::{decode_block, decoded_samples, lemma_floor_shifts};
use crate::snes::utils::{bit, bit_set};

verus! {

/// Index of the left channel in stereo pairs.
pub const LEFT: usize = 0;

/// Index of the right channel in stereo pairs.
pub const RIGHT: usize = 1;

/// How the gain of a voice changes when its envelope is not an ADSR.
#[derive(Clone, Copy, Debug)]
pub enum GainMode {
    Fixed,
    LinearDecrease,
    ExponentialDecrease,
    LinearIncrease,
    BentIncrease,
}

impl GainMode {
    /// The mode given by the low three bits of a value: 4 to 7 name the four changing
    /// modes, anything else is fixed.
    pub open spec fn from_bits(value: u8) -> GainMode {
        let v = value % 8;
        if v == 4 {
            GainMode::LinearDecrease
        } else if v == 5 {
            GainMode::ExponentialDecrease
        } else if v == 6 {
            GainMode::LinearIncrease
        } else if v == 7 {
            GainMode::BentIncrease
        } else {
            GainMode::Fixed
        }
    }

    pub fn from(value: u8) -> (r: GainMode)
        ensures
            r == Self::from_bits(value),
    {
        let v = value % 8;
        if v == 4 {
            GainMode::LinearDecrease
        } else if v == 5 {
            GainMode::ExponentialDecrease
        } else if v == 6 {
            GainMode::LinearIncrease
        } else if v == 7 {
            GainMode::BentIncrease
        } else {
            GainMode::Fixed
        }
    }
}

/// The stage of an ADSR envelope.
#[derive(Clone, Copy, Debug)]
pub enum AdsrStage {
    Attack,
    Decay,
    Sustain,
    Release,
}

impl AdsrStage {
    /// The name of the stage.
    pub open spec fn name(self) -> Seq<char> {
        match self {
            AdsrStage::Attack => "Attack"@,
            AdsrStage::Decay => "Decay"@,
            AdsrStage::Sustain => "Sustain"@,
            AdsrStage::Release => "Release"@,
        }
    }

    pub fn to_string(&self) -> (r: String)
        ensures
            r@ == self.name(),
    {
        match self {
            AdsrStage::Attack => String::from_str("Attack"),
            AdsrStage::Decay => String::from_str("Decay"),
            AdsrStage::Sustain => String::from_str("Sustain"),
            AdsrStage::Release => String::from_str("Release"),
        }
    }
}

/// One of the timers of the audio unit.
#[derive(Clone, Copy, Debug)]
pub struct ApuTimer {
    pub enabled: bool,
    /// Set by program
    pub timer_target: u8,
    /// Automatically counts up
    pub timer_value: u8,
    /// Really u4
    pub counter: u8,
}

impl ApuTimer {
    /// A disabled timer with everything cleared.
    pub fn new() -> (r: ApuTimer)
        ensures
            r == (ApuTimer { enabled: false, timer_target: 0, timer_value: 0, counter: 0 }),
    {
        ApuTimer { enabled: false, timer_target: 0, timer_value: 0, counter: 0 }
    }
}

/// One voice of the sound processor.
#[derive(Clone, Copy)]
pub struct Voice {
    pub enabled: bool,
    /// Volume, first left, then right
    pub volume: [i8; 2],
    /// Sample pitch, i.e. rate at which samples are consumed
    pub sample_pitch: u16,
    /// Sample source
    pub sample_src: usize,
    /// ADSR enable
    pub adsr_enabled: bool,
    pub adsr_stage: AdsrStage,
    pub decay_rate: usize,
    pub attack_rate: usize,
    pub sustain_level: u32,
    pub sustain_rate: usize,
    pub gain_rate: usize,
    pub gain_mode: GainMode,
    pub echo_enabled: bool,
    /// End of block flag
    pub end_flag: bool,
    /// Current address of the block being played
    pub block_addr: Option<usize>,
    /// Decoded samples from the BRR block
    pub samples: [i16; 16],
    /// Copy of previous sample data, for gaussian interpolation
    pub prev_sample_data: [i16; 16],
    /// Counter value
    pub counter: u16,
    /// Whether pitch modulation is enabled
    pub pitch_mod_enabled: bool,
    /// The current envelope of the voice
    pub envelope: u16,
    /// Internal period counter value
    pub period_counter: usize,
    /// Replace the output of the voice with noise
    pub noise_enabled: bool,
}

/// A voice after `value` is written to its register `addr` (the low nibble counts).
pub open spec fn voice_write(v: Voice, addr: usize, value: u8) -> Voice {
    let r = addr % 0x10;
    if r == 0 {
        Voice { volume: [value as i8, v.volume[1]], ..v }
    } else if r == 1 {
        Voice { volume: [v.volume[0], value as i8], ..v }
    } else if r == 2 {
        Voice { sample_pitch: ((v.sample_pitch / 0x100) % 0x40 * 0x100 + value as int) as u16, ..v }
    } else if r == 3 {
        Voice { sample_pitch: ((value % 0x40) as int * 0x100 + (v.sample_pitch % 0x100) as int) as u16, ..v }
    } else if r == 4 {
        Voice { sample_src: (value as int * 4) as usize, ..v }
    } else if r == 5 {
        Voice {
            adsr_enabled: bit_set(value, 7),
            decay_rate: (2 * ((value / 16) % 8) as int + 0x10) as usize,
            attack_rate: (2 * (value % 16) as int + 1) as usize,
            ..v
        }
    } else if r == 6 {
        Voice { sustain_rate: (value % 32) as usize, sustain_level: (((value / 32) as int + 1) * 0x200) as u32, ..v }
    } else if r == 7 {
        if !bit_set(value, 7) {
            Voice { envelope: ((value % 0x80) as int * 0x10) as u16, gain_mode: GainMode::Fixed, ..v }
        } else {
            Voice { gain_rate: (value % 32) as usize, gain_mode: GainMode::from_bits(value / 32), ..v }
        }
    } else {
        v
    }
}

/// A voice after a register write.
fn voice_written(v: Voice, addr: usize, value: u8) -> (r: Voice)
    ensures
        r == voice_write(v, addr, value),
{
    let mut v = v;
    let r = addr % 0x10;
    if r == 0 {
        v.volume = [value as i8, v.volume[RIGHT]];
    } else if r == 1 {
        v.volume = [v.volume[LEFT], value as i8];
    } else if r == 2 {
        v.sample_pitch = (v.sample_pitch / 0x100) % 0x40 * 0x100 + value as u16;
    } else if r == 3 {
        v.sample_pitch = (value % 0x40) as u16 * 0x100 + v.sample_pitch % 0x100;
    } else if r == 4 {
        v.sample_src = (value as usize) * 0x04;
    } else if r == 5 {
        v.adsr_enabled = bit(value, 7);
        v.decay_rate = 0x2 * ((value / 16) % 8) as usize + 0x10;
        v.attack_rate = 0x2 * (value % 16) as usize + 1;
    } else if r == 6 {
        v.sustain_rate = (value % 32) as usize;
        v.sustain_level = ((value / 32) as u32 + 1) * 0x200;
    } else if r == 7 {
        if !bit(value, 7) {
            v.envelope = (value % 0x80) as u16 * 0x10;
            v.gain_mode = GainMode::Fixed;
        } else {
            v.gain_rate = (value % 32) as usize;
            v.gain_mode = GainMode::from(value / 32);
        }
    }
    v
}

impl Voice {
    /// A silent voice with every register cleared.
    /// A silent voice: every field 0, `false` or its first variant.
    pub fn new() -> (r: Voice)
        ensures
            r.samples@ == Seq::new(16, |i: int| 0i16),
            r.prev_sample_data@ == Seq::new(16, |i: int| 0i16),
            r == (Voice {
                enabled: false,
                volume: [0i8, 0i8],
                sample_pitch: 0,
                sample_src: 0,
                adsr_enabled: false,
                adsr_stage: AdsrStage::Attack,
                decay_rate: 0,
                attack_rate: 0,
                sustain_level: 0,
                sustain_rate: 0,
                gain_rate: 0,
                gain_mode: GainMode::Fixed,
                echo_enabled: false,
                end_flag: false,
                block_addr: None,
                samples: r.samples,
                prev_sample_data: r.prev_sample_data,
                counter: 0,
                pitch_mod_enabled: false,
                envelope: 0,
                period_counter: 0,
                noise_enabled: false,
            }),
    {
        Voice {
            enabled: false,
            volume: [0, 0],
            sample_pitch: 0,
            sample_src: 0,
            adsr_enabled: false,
            adsr_stage: AdsrStage::Attack,
            decay_rate: 0,
            attack_rate: 0,
            sustain_level: 0,
            sustain_rate: 0,
            gain_rate: 0,
            gain_mode: GainMode::Fixed,
            echo_enabled: false,
            end_flag: false,
            block_addr: None,
            samples: [0; 16],
            prev_sample_data: [0; 16],
            counter: 0,
            pitch_mod_enabled: false,
            envelope: 0,
            period_counter: 0,
            noise_enabled: false,
        }
    }

    /// Write one of the voice's registers.
    pub fn write(&mut self, addr: usize, value: u8)
        ensures
            *final(self) == voice_write(*old(self), addr, value),
    {
        *self = voice_written(*self, addr, value);
    }

    /// Read one of the voice's registers: the address is matched on its high nibble,
    /// so only the left volume can be read back (at high nibble 0); the rest read 0.
    pub fn read(&self, addr: usize) -> (r: u8)
        ensures
            r == if (addr / 0x10) % 0x10 == 0 { self.volume[0] as u8 } else { 0u8 },
    {
        if (addr / 0x10) % 0x10 == 0 {
            self.volume[LEFT] as u8
        } else {
            0
        }
    }
}

/// The little-endian word at `a` in `ram`.
pub open spec fn le_word(ram: Seq<u8>, a: int) -> int {
    ram[a] as int + ram[a + 1] as int * 0x100
}

/// The eight data bytes of the block at `a`, wrapping around the end of `ram`.
pub open spec fn block_data(ram: Seq<u8>, a: int) -> Seq<u8> {
    Seq::new(8, |j: int| ram[(a + 1 + j) % (ram.len() as int)])
}

/// The smaller of `v` and `hi`, and at least `lo`.
pub open spec fn clamped(v: int, lo: int, hi: int) -> int {
    if v < lo {
        lo
    } else if v > hi {
        hi
    } else {
        v
    }
}

impl Voice {
    /// How far the sample position moves in one sample: the pitch, modulated by the
    /// previous voice's output when pitch modulation is on.
    pub open spec fn pitch_step(self, prev_pitch: i32) -> int {
        if self.pitch_mod_enabled {
            clamped(self.sample_pitch as int * (prev_pitch as int / 16 + 0x400) / 1024, 0, 0xFFFF)
        } else {
            self.sample_pitch as int
        }
    }

    /// Whether the pitch modulation fits in 32-bit arithmetic.
    pub open spec fn pitch_fits(self, prev_pitch: i32) -> bool {
        self.pitch_mod_enabled ==> i32::MIN <= self.sample_pitch as int * (prev_pitch as int / 16 + 0x400)
            <= i32::MAX
    }

    /// Whether moving the sample position wraps around, so that the next block is due.
    pub open spec fn wraps(self, prev_pitch: i32) -> bool {
        self.counter + self.pitch_step(prev_pitch) > 0xFFFF
    }

    /// The voice with its sample position moved.
    pub open spec fn stepped(self, prev_pitch: i32) -> Voice {
        Voice { counter: ((self.counter + self.pitch_step(prev_pitch)) % 0x10000) as u16, ..self }
    }

    /// The address of the block that plays next: the one the voice points at, or the
    /// start of its sample, read from the sample directory at `dir`.
    pub open spec fn block_start(self, dir: usize, ram: Seq<u8>) -> int {
        match self.block_addr {
            Some(a) => a as int,
            None => le_word(ram, dir + self.sample_src),
        }
    }

    /// Whether loading the next block reads only inside `ram` and its addresses fit.
    pub open spec fn block_readable(self, dir: usize, ram: Seq<u8>) -> bool {
        let a = self.block_start(dir, ram);
        let head = ram[a];
        &&& ram.len() > 0
        &&& self.block_addr is None ==> dir + self.sample_src + 1 < ram.len()
        &&& a < ram.len()
        &&& a + 9 <= usize::MAX
        &&& (head % 2 == 1 && (head / 2) % 2 == 1) ==> dir + self.sample_src + 3 < ram.len()
    }

    /// `new` is `old` after loading its next block: the header's end flag, the decoded
    /// samples after the previous ones, and the block after it (the loop point of the
    /// sample when the block ends with the loop flag; none, and the voice off, when it
    /// ends without).
    pub open spec fn block_loaded(old: Voice, new: Voice, dir: usize, ram: Seq<u8>) -> bool {
        let a = old.block_start(dir, ram);
        let head = ram[a];
        let end = head % 2 == 1;
        let looped = (head / 2) % 2 == 1;
        let next: Option<usize> = if !end {
            Some((a + 9) as usize)
        } else if looped {
            Some(le_word(ram, dir + old.sample_src + 2) as usize)
        } else {
            None
        };
        &&& new.samples@ == decoded_samples(head, block_data(ram, a), old.samples[15], old.samples[14], 16)
        &&& new == (Voice {
            end_flag: end,
            prev_sample_data: old.samples,
            samples: new.samples,
            block_addr: next,
            enabled: old.enabled && !(end && !looped),
            ..old
        })
    }

    /// Move the sample position by one sample's pitch step; says whether it wrapped.
    pub fn step_counter(&mut self, prev_pitch: i32) -> (wrapped: bool)
        requires
            old(self).pitch_fits(prev_pitch),
        ensures
            wrapped == old(self).wraps(prev_pitch),
            *final(self) == old(self).stepped(prev_pitch),
    {
        let step: u16 = if self.pitch_mod_enabled {
            proof {
                lemma_floor_shifts(prev_pitch);
            }
            let m: i32 = (prev_pitch >> 4u32) + 0x400;
            let product: i32 = self.sample_pitch as i32 * m;
            proof {
                lemma_floor_shifts(product);
            }
            let v: i32 = product >> 10u32;
            if v < 0 {
                0
            } else if v > 0xFFFF {
                0xFFFF
            } else {
                v as u16
            }
        } else {
            self.sample_pitch
        };
        let sum: u32 = self.counter as u32 + step as u32;
        self.counter = (sum % 0x10000) as u16;
        sum > 0xFFFF
    }

    /// Load and decode the next block of the voice's sample.
    pub fn load_block(&mut self, sample_dir_addr: usize, ram: &[u8])
        requires
            old(self).block_readable(sample_dir_addr, ram@),
        ensures
            Voice::block_loaded(*old(self), *final(self), sample_dir_addr, ram@),
    {
        let len = ram.len();
        let block_addr: usize = match self.block_addr {
            Some(a) => a,
            None => {
                let addr = sample_dir_addr + self.sample_src;
                ram[addr] as usize + ram[addr + 1] as usize * 0x100
            },
        };
        let head = ram[block_addr];
        let loop_flag = (head / 2) % 2 == 1;
        let end = head % 2 == 1;
        let mut data: [u8; 8] = [0; 8];
        let mut j: usize = 0;
        while j < 8
            invariant
                j <= 8,
                len == ram@.len(),
                len > 0,
                block_addr + 9 <= usize::MAX,
                data@.len() == 8,
                forall|k: int| 0 <= k < j ==> data@[k] == block_data(ram@, block_addr as int)[k],
            decreases 8 - j,
        {
            data[j] = ram[(block_addr + 1 + j) % len];
            j = j + 1;
        }
        proof {
            assert(data@ =~= block_data(ram@, block_addr as int));
        }
        let decoded = decode_block(head, &data, self.samples[15], self.samples[14]);
        let next: Option<usize> = if !end {
            Some(block_addr + 9)
        } else if loop_flag {
            let addr = sample_dir_addr + self.sample_src + 2;
            Some(ram[addr] as usize + ram[addr + 1] as usize * 0x100)
        } else {
            None
        };
        let enabled = self.enabled && !(end && !loop_flag);
        self.end_flag = end;
        self.prev_sample_data = self.samples;
        self.samples = decoded;
        self.block_addr = next;
        self.enabled = enabled;
    }

    /// Move an enabled voice's sample position by one sample, decoding the next block
    /// of its sample when the position wraps. This is the integer part of producing a
    /// sample; the interpolation and the envelope scaling follow it.
    pub fn advance_sample(&mut self, sample_dir_addr: usize, prev_pitch: i32, ram: &[u8])
        requires
            old(self).enabled ==> old(self).pitch_fits(prev_pitch),
            old(self).enabled && old(self).wraps(prev_pitch) ==> old(self).block_readable(
                sample_dir_addr,
                ram@,
            ),
        ensures
            !old(self).enabled ==> *final(self) == *old(self),
            old(self).enabled && !old(self).wraps(prev_pitch) ==> *final(self) == old(self).stepped(
                prev_pitch,
            ),
            old(self).enabled && old(self).wraps(prev_pitch) ==> Voice::block_loaded(
                old(self).stepped(prev_pitch),
                *final(self),
                sample_dir_addr,
                ram@,
            ),
    {
        if self.enabled {
            let wrapped = self.step_counter(prev_pitch);
            if wrapped {
                self.load_block(sample_dir_addr, ram);
            }
        }
    }
}

/// The weight of tap `i` (0 the newest sample, 3 the oldest) of the Gaussian
/// interpolation at the fractional position `gi` (0 to 255) of the sample position.
pub open spec fn gauss_weight(gauss: Seq<i16>, gi: int, i: int) -> int {
    if i == 0 {
        gauss[gi] as int
    } else if i == 1 {
        gauss[0x100 + gi] as int
    } else if i == 2 {
        gauss[0x1FF - gi] as int
    } else {
        gauss[0xFF - gi] as int
    }
}

impl Voice {
    /// The decoded sample under tap `i` (0 the newest): counted back from the sample
    /// that the position's top four bits select, into the previous block when it
    /// runs past the start of the current one.
    pub open spec fn tap_sample(self, i: int) -> int {
        let si = (self.counter / 0x1000) as int;
        if i > si {
            self.prev_sample_data[16 - (i - si)] as int
        } else {
            self.samples[si - i] as int
        }
    }

    /// Tap `i` of the interpolation: its weight times its sample, over 1024 (rounded
    /// down).
    pub open spec fn tap(self, gauss: Seq<i16>, i: int) -> int {
        gauss_weight(gauss, ((self.counter % 0x1000) / 16) as int, i) * self.tap_sample(i) / 1024
    }

    /// The interpolated sample at the voice's position: half the sum of the four taps
    /// (rounded down), within the 16-bit range.
    pub open spec fn interpolated(self, gauss: Seq<i16>) -> int {
        clamped((self.tap(gauss, 0) + self.tap(gauss, 1) + self.tap(gauss, 2) + self.tap(gauss, 3)) / 2, -32768, 32767)
    }

    /// One tap of the interpolation.
    fn tap_at(&self, gauss: &[i16], i: usize) -> (r: i32)
        requires
            gauss@.len() >= 0x200,
            i < 4,
        ensures
            r == self.tap(gauss@, i as int),
            -0x100000 <= r <= 0x100000,
    {
        let sample_index = (self.counter / 0x1000) as usize;
        let gauss_index = (self.counter as usize % 0x1000) / 16;
        let g: i32 = if i == 0 {
            gauss[gauss_index] as i32
        } else if i == 1 {
            gauss[0x100 + gauss_index] as i32
        } else if i == 2 {
            gauss[0x1FF - gauss_index] as i32
        } else {
            gauss[0xFF - gauss_index] as i32
        };
        let s: i32 = if i > sample_index {
            self.prev_sample_data[16 - (i - sample_index)] as i32
        } else {
            self.samples[sample_index - i] as i32
        };
        assert(-0x4000_0000 <= g * s <= 0x4000_0000) by (nonlinear_arith)
            requires
                -0x8000 <= g < 0x8000,
                -0x8000 <= s < 0x8000,
        ;
        let product = g * s;
        proof {
            lemma_floor_shifts(product);
        }
        product >> 10u32
    }

    /// The sample at the voice's position, by Gaussian interpolation of the four
    /// decoded samples around it with the weights of `gauss` (512 entries).
    pub fn interpolate(&self, gauss: &[i16]) -> (r: i32)
        requires
            gauss@.len() >= 0x200,
        ensures
            r == self.interpolated(gauss@),
    {
        let sum = self.tap_at(gauss, 0) + self.tap_at(gauss, 1) + self.tap_at(gauss, 2) + self.tap_at(gauss, 3);
        proof {
            lemma_floor_shifts(sum);
        }
        let half = sum >> 1u32;
        if half < -32768 {
            -32768
        } else if half > 32767 {
            32767
        } else {
            half
        }
    }
}

/// `a - b`, but not below 0.
pub open spec fn sat_sub(a: int, b: int) -> int {
    if a - b < 0 {
        0
    } else {
        a - b
    }
}

/// One step of the exponential decay: less 1, then less 1/256 of the result plus 1.
pub open spec fn decayed(env: int) -> int {
    let v = sat_sub(env, 1);
    sat_sub(v, v / 256 + 1)
}

/// Whether the envelope moves on at period counter `pc` for `rate`: the rate's
/// period is not 0 and divides the counter plus the rate's offset.
pub open spec fn period_elapsed(pc: usize, rate: int, period: Seq<usize>, offset: Seq<usize>) -> bool {
    period[rate] != 0 && (pc + offset[rate]) % (period[rate] as int) == 0
}

impl Voice {
    /// The period counter after one clock: it counts down from 0x77FF and wraps.
    pub open spec fn next_period_counter(self) -> usize {
        if self.period_counter == 0 {
            0x77FF
        } else {
            (self.period_counter - 1) as usize
        }
    }

    /// The rate that governs the envelope now: the rate of the ADSR stage, or the gain
    /// rate without ADSR; `release` is the rate of the release stage.
    pub open spec fn clock_rate(self, release: usize) -> int {
        if self.adsr_enabled {
            match self.adsr_stage {
                AdsrStage::Attack => self.attack_rate as int,
                AdsrStage::Decay => self.decay_rate as int,
                AdsrStage::Sustain => self.sustain_rate as int,
                AdsrStage::Release => release as int,
            }
        } else {
            self.gain_rate as int
        }
    }

    /// The envelope before limiting, and the ADSR stage, after one clock at which the
    /// envelope moves on (`moves`).
    pub open spec fn envelope_step(self, moves: bool) -> (int, AdsrStage) {
        let env = self.envelope as int;
        if self.adsr_enabled {
            match self.adsr_stage {
                AdsrStage::Attack => {
                    let v = if moves { env + if self.attack_rate == 0x1F { 1024int } else { 32 } } else { env };
                    (if v < 0x7FF { v } else { 0x7FF }, if v >= 0x7E0 { AdsrStage::Decay } else { AdsrStage::Attack })
                },
                AdsrStage::Decay => if moves {
                    let v = decayed(env);
                    (v, if (v / 32) % 8 == (self.sustain_level / 32) % 8 { AdsrStage::Sustain } else { AdsrStage::Decay })
                } else {
                    (env, AdsrStage::Decay)
                },
                AdsrStage::Sustain => (if moves { decayed(env) } else { env }, AdsrStage::Sustain),
                AdsrStage::Release => (if moves { sat_sub(env, 8) } else { env }, AdsrStage::Release),
            }
        } else if moves {
            (match self.gain_mode {
                GainMode::Fixed => env,
                GainMode::LinearDecrease => sat_sub(env, 32),
                GainMode::ExponentialDecrease => sat_sub(env, sat_sub(env, 1) / 256 + 1),
                GainMode::LinearIncrease => env + 32,
                GainMode::BentIncrease => if env < 0x600 { env + 32 } else { env + 8 },
            }, self.adsr_stage)
        } else {
            (env, self.adsr_stage)
        }
    }

    /// The voice after one clock of its envelope: the period counter moves on, and
    /// when the governing rate's period has elapsed the envelope moves as the ADSR
    /// stage or the gain mode says; the envelope stays within 0 and `max`.
    pub open spec fn clocked(self, period: Seq<usize>, offset: Seq<usize>, release: usize, max: u16) -> Voice {
        let pc = self.next_period_counter();
        let (e, stage) = self.envelope_step(period_elapsed(pc, self.clock_rate(release), period, offset));
        Voice { period_counter: pc, envelope: clamped(e, 0, max as int) as u16, adsr_stage: stage, ..self }
    }

    /// Whether the tables and registers let the envelope clock run without overflow
    /// and inside the tables.
    pub open spec fn clock_ok(self, period: Seq<usize>, offset: Seq<usize>, release: usize) -> bool {
        let r = self.clock_rate(release);
        &&& 0 <= r < period.len()
        &&& r < offset.len()
        &&& self.next_period_counter() + offset[r] <= usize::MAX
        &&& self.envelope + 1024 <= 0xFFFF
    }

    /// The envelope and stage after one clock.
    fn envelope_after(&self, moves: bool) -> (r: (u16, AdsrStage))
        requires
            self.envelope + 1024 <= 0xFFFF,
        ensures
            r.0 == self.envelope_step(moves).0,
            r.1 == self.envelope_step(moves).1,
    {
        let env = self.envelope;
        if self.adsr_enabled {
            match self.adsr_stage {
                AdsrStage::Attack => {
                    let v = if moves {
                        env + if self.attack_rate == 0x1F { 1024 } else { 32 }
                    } else {
                        env
                    };
                    (if v < 0x7FF { v } else { 0x7FF }, if v >= 0x7E0 { AdsrStage::Decay } else { AdsrStage::Attack })
                },
                AdsrStage::Decay => {
                    if moves {
                        let d = env.saturating_sub(1);
                        proof {
                            vstd::bits::lemma_u16_shr_is_div(d, 8);
                            vstd::arithmetic::power2::lemma2_to64();
                        }
                        let v = d.saturating_sub((d >> 8u16) + 1);
                        let level = (self.sustain_level & 0xE0) as u16;
                        proof {
                            assert((v & 0xE0) as int == ((v / 32) % 8) * 32) by (bit_vector);
                            let sl = self.sustain_level;
                            assert(((sl & 0xE0) as u16) as int == ((sl / 32) % 8) * 32) by (bit_vector);
                        }
                        (v, if v & 0xE0 == level { AdsrStage::Sustain } else { AdsrStage::Decay })
                    } else {
                        (env, AdsrStage::Decay)
                    }
                },
                AdsrStage::Sustain => {
                    if moves {
                        let v = env.saturating_sub(1);
                        proof {
                            vstd::bits::lemma_u16_shr_is_div(v, 8);
                            vstd::arithmetic::power2::lemma2_to64();
                        }
                        (v.saturating_sub((v >> 8u16) + 1), AdsrStage::Sustain)
                    } else {
                        (env, AdsrStage::Sustain)
                    }
                },
                AdsrStage::Release => {
                    (if moves { env.saturating_sub(8) } else { env }, AdsrStage::Release)
                },
            }
        } else if moves {
            let v = match self.gain_mode {
                GainMode::Fixed => env,
                GainMode::LinearDecrease => env.saturating_sub(32),
                GainMode::ExponentialDecrease => {
                    let d = env.saturating_sub(1);
                    proof {
                        vstd::bits::lemma_u16_shr_is_div(d, 8);
                        vstd::arithmetic::power2::lemma2_to64();
                    }
                    env.saturating_sub((d >> 8u16) + 1)
                },
                GainMode::LinearIncrease => env + 32,
                GainMode::BentIncrease => if env < 0x600 { env + 32 } else { env + 8 },
            };
            (v, self.adsr_stage)
        } else {
            (env, self.adsr_stage)
        }
    }
}

impl Voice {
    /// Whether the envelope moves on at period counter `pc` for `rate`.
    fn period_elapsed_at(pc: usize, rate: usize, period: &[usize], offset: &[usize]) -> (r: bool)
        requires
            rate < period@.len(),
            rate < offset@.len(),
            pc + offset@[rate as int] <= usize::MAX,
        ensures
            r == period_elapsed(pc, rate as int, period@, offset@),
    {
        let table_val = period[rate];
        table_val != 0 && (pc + offset[rate]) % table_val == 0
    }

    /// Clock the envelope once, with the period of each rate (`period`), the offset of
    /// each rate (`offset`), the rate of the release stage and the envelope's maximum.
    pub fn clock(&mut self, period: &[usize], offset: &[usize], release: usize, max: u16)
        requires
            old(self).clock_ok(period@, offset@, release),
        ensures
            *final(self) == old(self).clocked(period@, offset@, release, max),
    {
        let pc: usize = if self.period_counter == 0 { 0x77FF } else { self.period_counter - 1 };
        let rate: usize = if self.adsr_enabled {
            match self.adsr_stage {
                AdsrStage::Attack => self.attack_rate,
                AdsrStage::Decay => self.decay_rate,
                AdsrStage::Sustain => self.sustain_rate,
                AdsrStage::Release => release,
            }
        } else {
            self.gain_rate
        };
        let moves = Self::period_elapsed_at(pc, rate, period, offset);
        let (e, stage) = self.envelope_after(moves);
        self.period_counter = pc;
        self.envelope = if e > max { max } else { e };
        self.adsr_stage = stage;
    }

    /// The integer part of producing a sample: an enabled voice clocks its envelope
    /// and moves its sample position (decoding the next block when the position
    /// wraps); then the sample at the position is interpolated with the weights
    /// `gauss`, and it becomes the previous output (`prev_pitch`) for the next voice's
    /// pitch modulation. The result still has to be scaled by the envelope and the
    /// volume.
    pub fn next_sample(
        &mut self,
        sample_dir_addr: usize,
        prev_pitch: &mut i32,
        ram: &[u8],
        gauss: &[i16],
        period: &[usize],
        offset: &[usize],
        release: usize,
        max: u16,
    ) -> (r: i32)
        requires
            gauss@.len() >= 0x200,
            old(self).enabled ==> old(self).clock_ok(period@, offset@, release),
            old(self).enabled ==> old(self).pitch_fits(*old(prev_pitch)),
            old(self).enabled && old(self).wraps(*old(prev_pitch)) ==> old(self).block_readable(
                sample_dir_addr,
                ram@,
            ),
        ensures
            ({
                let c = if old(self).enabled { old(self).clocked(period@, offset@, release, max) } else { *old(self) };
                &&& !c.enabled ==> *final(self) == c
                &&& c.enabled && !c.wraps(*old(prev_pitch)) ==> *final(self) == c.stepped(*old(prev_pitch))
                &&& c.enabled && c.wraps(*old(prev_pitch)) ==> Voice::block_loaded(
                    c.stepped(*old(prev_pitch)),
                    *final(self),
                    sample_dir_addr,
                    ram@,
                )
                &&& r == final(self).interpolated(gauss@)
                &&& *final(prev_pitch) == r
            }),
    {
        if self.enabled {
            self.clock(period, offset, release, max);
        }
        self.advance_sample(sample_dir_addr, *prev_pitch, ram);
        let sample = self.interpolate(gauss);
        *prev_pitch = sample;
        sample
    }
}

/// A clock of the envelope keeps it within its maximum, leaves a fixed gain where it
/// is, and changes nothing but the envelope, the ADSR stage and the period counter.
pub proof fn lemma_clock_keeps_envelope(v: Voice, period: Seq<usize>, offset: Seq<usize>, release: usize, max: u16)
    requires
        v.envelope <= max,
    ensures
        v.clocked(period, offset, release, max).envelope <= max,
        !v.adsr_enabled && v.gain_mode == GainMode::Fixed ==> v.clocked(period, offset, release, max).envelope
            == v.envelope,
        v.clocked(period, offset, release, max) == (Voice {
            envelope: v.clocked(period, offset, release, max).envelope,
            adsr_stage: v.clocked(period, offset, release, max).adsr_stage,
            period_counter: v.clocked(period, offset, release, max).period_counter,
            ..v
        }),
{
}

} // verus!
