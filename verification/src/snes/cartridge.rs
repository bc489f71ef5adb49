use vstd::prelude::*;

use crate::text::push_char;

verus! {

/// How the cartridge's ROM is mapped into the CPU's address space.
#[derive(Clone, Copy, Debug)]
pub enum MemoryMap {
    LoRom,
    HiRom,
    ExHiRom,
}

/// The masks of the memory maps in arithmetic terms.
proof fn lemma_address_bits(address: usize)
    by (bit_vector)
    ensures
        (address & 0x7FFF) == address % 0x8000,
        ((address >> 1) & 0x7F_8000) == ((address / 0x10000) % 0x100) * 0x8000,
        (address & 0x3F_FFFF) == address % 0x400000,
        (((!address) & 0x80_0000) >> 1) | (address & 0x3F_FFFF) == (if (address / 0x800000) % 2 == 0 {
            0x400000usize
        } else {
            0usize
        }) + address % 0x400000,
{
}

impl MemoryMap {
    /// The ROM offset of a 24-bit CPU address. LoRom maps 32 KiB of ROM into the upper
    /// half of each bank; HiRom maps whole 64 KiB banks; ExHiRom also uses bit 23 to
    /// select which half of an 8 MiB ROM is seen.
    pub open spec fn transform_spec(self, address: usize) -> int {
        match self {
            MemoryMap::LoRom => address % 0x8000 + ((address / 0x10000) % 0x100) * 0x8000,
            MemoryMap::HiRom => (address % 0x400000) as int,
            MemoryMap::ExHiRom => (if (address / 0x800000) % 2 == 0 { 0x400000int } else { 0 }) + address
                % 0x400000,
        }
    }

    /// Whether a CPU address falls in the cartridge's battery-backed RAM.
    pub open spec fn is_sram_spec(self, address: usize) -> bool {
        match self {
            MemoryMap::LoRom => 0x700000 <= address % 0x800000 < 0x7E0000 && address % 0x10000 < 0x8000,
            MemoryMap::HiRom => 0x300000 <= address < 0x400000 && 0x6000 <= address % 0x10000 < 0x8000,
            MemoryMap::ExHiRom => 0x800000 <= address < 0xC00000 && 0x6000 <= address % 0x10000 < 0x8000,
        }
    }

    pub fn transform_address(&self, address: usize) -> (r: usize)
        ensures
            r == self.transform_spec(address),
    {
        match self {
            MemoryMap::LoRom => {
                proof {
                    lemma_address_bits(address);
                }
                (address & 0x7FFF) + ((address >> 1) & 0x7F_8000)
            },
            MemoryMap::HiRom => {
                proof {
                    lemma_address_bits(address);
                }
                address & 0x3F_FFFF
            },
            MemoryMap::ExHiRom => {
                proof {
                    lemma_address_bits(address);
                }
                (((!address) & 0x80_0000) >> 1) | (address & 0x3F_FFFF)
            },
        }
    }

    pub fn is_sram_address(&self, address: usize) -> (r: bool)
        ensures
            r == self.is_sram_spec(address),
    {
        match self {
            MemoryMap::LoRom => {
                let a = address % 0x80_0000;
                0x70_0000 <= a && a < 0x7E_0000 && address % 0x10000 < 0x8000
            },
            MemoryMap::HiRom => {
                let low = address % 0x10000;
                0x30_0000 <= address && address < 0x40_0000 && 0x6000 <= low && low < 0x8000
            },
            MemoryMap::ExHiRom => {
                let low = address % 0x10000;
                0x80_0000 <= address && address < 0xC0_0000 && 0x6000 <= low && low < 0x8000
            },
        }
    }
}

/// The little-endian word at `i`.
pub open spec fn word_at(arr: Seq<u8>, i: int) -> int {
    arr[i] + 0x100 * arr[i + 1]
}

fn u16_at(arr: &[u8], i: usize) -> (r: u16)
    requires
        i + 1 < arr.len(),
    ensures
        r == word_at(arr@, i as int),
{
    arr[i] as u16 + 0x100 * arr[i + 1] as u16
}

/// Whether the header at `header_index` holds `checksum` and its complement.
pub open spec fn checksum_matches_spec(data: Seq<u8>, header_index: int, checksum: u16) -> bool {
    header_index + 0x40 <= data.len() && word_at(data, header_index + 0x1E) == checksum && word_at(
        data,
        header_index + 0x1C,
    ) == (checksum ^ 0xFFFF)
}

fn checksum_matches(data: &[u8], header_index: usize, checksum: u16) -> (r: bool)
    requires
        header_index + 0x40 <= usize::MAX,
    ensures
        r == checksum_matches_spec(data@, header_index as int, checksum),
{
    // Verify length
    if header_index + 0x40 > data.len() {
        false
    } else {
        checksum == u16_at(data, header_index + 0x1E) && checksum ^ 0xFFFF == u16_at(data, header_index + 0x1C)
    }
}

/// The sum of the bytes.
pub open spec fn sum_bytes(s: Seq<u8>) -> int
    decreases s.len(),
{
    if s.len() == 0 {
        0
    } else {
        sum_bytes(s.drop_last()) + s.last()
    }
}

/// Whether `n` is a power of two.
pub open spec fn is_pow2(n: int) -> bool
    decreases n,
{
    if n <= 0 {
        false
    } else if n == 1 {
        true
    } else {
        n % 2 == 0 && is_pow2(n / 2)
    }
}

/// The largest power of two not above `n` (for `n` at least 1).
pub open spec fn floor_pow2(n: int) -> int
    decreases n,
{
    if n <= 1 {
        1
    } else {
        2 * floor_pow2(n / 2)
    }
}

/// The smallest power of two not below `n` (for `n` at least 1).
pub open spec fn ceil_pow2(n: int) -> int {
    if floor_pow2(n) == n { n } else { 2 * floor_pow2(n) }
}

/// The cartridge checksum: the byte sum when the size is a power of two; otherwise
/// the sum of the largest power-of-two part plus the remainder's sum repeated as often
/// as the remainder, rounded up to a power of two, fits into that part (all modulo 2^16).
pub open spec fn checksum_spec(data: Seq<u8>) -> int {
    let len = data.len() as int;
    let index = floor_pow2(len);
    if index == len {
        sum_bytes(data) % 0x10000
    } else {
        let large = sum_bytes(data.subrange(0, index)) % 0x10000;
        let small = sum_bytes(data.subrange(index, len)) % 0x10000;
        let times = (index / ceil_pow2(len - index)) % 0x10000;
        (large + (small * times) % 0x10000) % 0x10000
    }
}

proof fn lemma_floor_pow2(p: int, n: int)
    requires
        is_pow2(p),
        p <= n < 2 * p,
    ensures
        floor_pow2(n) == p,
    decreases p,
{
    if p > 1 {
        lemma_floor_pow2(p / 2, n / 2);
    }
}

proof fn lemma_floor_pow2_props(n: int)
    requires
        n >= 1,
    ensures
        is_pow2(floor_pow2(n)),
        floor_pow2(n) <= n < 2 * floor_pow2(n),
    decreases n,
{
    if n > 1 {
        lemma_floor_pow2_props(n / 2);
        assert(is_pow2(2 * floor_pow2(n / 2))) by {
            assert((2 * floor_pow2(n / 2)) / 2 == floor_pow2(n / 2));
        }
    }
}

proof fn lemma_pow2_gap(a: int, b: int)
    requires
        is_pow2(a),
        is_pow2(b),
        a < b,
    ensures
        2 * a <= b,
    decreases b,
{
    if a > 1 {
        lemma_pow2_gap(a / 2, b / 2);
    }
}

proof fn lemma_sum_push(s: Seq<u8>, i: int)
    requires
        0 <= i < s.len(),
    ensures
        sum_bytes(s.subrange(0, i + 1)) == sum_bytes(s.subrange(0, i)) + s[i],
{
    assert(s.subrange(0, i + 1).drop_last() =~= s.subrange(0, i));
}

/// The largest power of two not above `n`.
fn largest_pow2_below(n: usize) -> (p: usize)
    requires
        n >= 1,
    ensures
        p == floor_pow2(n as int),
        is_pow2(p as int),
        1 <= p <= n,
{
    let mut p: usize = 1;
    while p <= n / 2
        invariant
            1 <= p <= n,
            is_pow2(p as int),
        decreases n - p,
    {
        assert(is_pow2(2 * p as int)) by {
            assert((2 * p as int) / 2 == p);
        }
        p = p * 2;
    }
    proof {
        lemma_floor_pow2(p as int, n as int);
    }
    p
}

/// The byte sum of `data[from..to]`, modulo 2^16.
fn sum_range(data: &[u8], from: usize, to: usize) -> (r: u16)
    requires
        from <= to <= data.len(),
    ensures
        r == sum_bytes(data@.subrange(from as int, to as int)) % 0x10000,
{
    let mut acc: u16 = 0;
    let mut i = from;
    while i < to
        invariant
            from <= i <= to <= data.len(),
            acc == sum_bytes(data@.subrange(from as int, i as int)) % 0x10000,
        decreases to - i,
    {
        proof {
            let s = data@.subrange(from as int, to as int);
            lemma_sum_push(s, i - from);
            assert(s.subrange(0, i - from + 1) =~= data@.subrange(from as int, i + 1));
            assert(s.subrange(0, i - from) =~= data@.subrange(from as int, i as int));
            vstd::arithmetic::div_mod::lemma_add_mod_noop(
                sum_bytes(data@.subrange(from as int, i as int)),
                data[i as int] as int,
                0x10000,
            );
            vstd::arithmetic::div_mod::lemma_mod_twice(data[i as int] as int, 0x10000);
        }
        acc = acc.wrapping_add(data[i] as u16);
        i = i + 1;
    }
    acc
}

fn compute_checksum(data: &[u8]) -> (r: u16)
    requires
        data.len() >= 1,
    ensures
        r == checksum_spec(data@),
{
    let len = data.len();
    let index = largest_pow2_below(len);
    if index == len {
        // Cartridge is already a power of 2
        assert(data@.subrange(0, len as int) =~= data@);
        sum_range(data, 0, len)
    } else {
        // Get the smallest power of two that is largest than the remainder length
        let remainder_len = len - index;
        proof {
            lemma_floor_pow2_props(len as int);
        }
        let lower = largest_pow2_below(remainder_len);
        let greater = if lower == remainder_len {
            remainder_len
        } else {
            proof {
                lemma_floor_pow2_props(remainder_len as int);
                lemma_pow2_gap(lower as int, index as int);
            }
            2 * lower
        };
        // Compute checksums
        let larger_checksum = sum_range(data, 0, index);
        let smaller_checksum = sum_range(data, index, len);
        // Combine as if repeating the remainder checksum to get an array that is 2 * index long
        let times = ((index / greater) % 0x10000) as u16;
        let r = larger_checksum.wrapping_add(smaller_checksum.wrapping_mul(times));
        proof {
            let a = larger_checksum as int;
            let b = smaller_checksum as int * times as int;
            assert(0 <= b <= 0xFFFF * 0xFFFF) by (nonlinear_arith)
                requires
                    0 <= smaller_checksum <= 0xFFFF,
                    0 <= times <= 0xFFFF,
                    b == smaller_checksum as int * times as int,
            ;
        }
        r
    }
}

/// A game cartridge: its ROM, how it is mapped, and its battery-backed RAM.
#[derive(Clone)]
pub struct Cartridge {
    memory_map: MemoryMap,
    pub data: Vec<u8>,
    sram: Vec<u8>,
}

/// The memory map a ROM image is detected as, and whether it starts with a 512-byte
/// copier header: the first header (LoRom, HiRom, ExHiRom, then LoRom and HiRom after a
/// copier header) whose checksum fields match the computed checksum, or LoRom.
pub open spec fn detect(data: Seq<u8>) -> (MemoryMap, bool) {
    let checksum = checksum_spec(data) as u16;
    let header_checksum = checksum_spec(data.subrange(0x200, data.len() as int)) as u16;
    if checksum_matches_spec(data, 0x007FC0, checksum) {
        (MemoryMap::LoRom, false)
    } else if checksum_matches_spec(data, 0x00FFC0, checksum) {
        (MemoryMap::HiRom, false)
    } else if checksum_matches_spec(data, 0x40FFC0, checksum) {
        (MemoryMap::ExHiRom, false)
    } else if checksum_matches_spec(data, 0x007FC0int + 0x200, header_checksum) {
        (MemoryMap::LoRom, true)
    } else if checksum_matches_spec(data, 0x00FFC0int + 0x200, header_checksum) {
        (MemoryMap::HiRom, true)
    } else {
        (MemoryMap::LoRom, false)
    }
}

/// The ROM contents after removing a copier header, if there is one.
pub open spec fn rom_of(data: Seq<u8>) -> Seq<u8> {
    if detect(data).1 { data.subrange(512, data.len() as int) } else { data }
}

/// The header byte that gives the SRAM size (as a power of two, in KiB).
pub open spec fn sram_size_byte(data: Seq<u8>) -> u8 {
    let rom = rom_of(data);
    rom[detect(data).0.transform_spec(0x00FFD8) % (rom.len() as int)]
}

/// 2 to the power `n`.
pub open spec fn pow2_nat(n: nat) -> nat
    decreases n,
{
    if n == 0 { 1 } else { 2 * pow2_nat((n - 1) as nat) }
}

proof fn lemma_pow2_nat_mono(a: nat, b: nat)
    requires
        a <= b,
    ensures
        pow2_nat(a) <= pow2_nat(b),
    decreases b,
{
    if a < b {
        lemma_pow2_nat_mono(a, (b - 1) as nat);
    }
}

impl Cartridge {
    /// The cartridge's memory map.
    pub closed spec fn map(self) -> MemoryMap {
        self.memory_map
    }

    /// The contents of the battery-backed RAM.
    pub closed spec fn sram_view(self) -> Seq<u8> {
        self.sram@
    }

    /// The ROM contents.
    pub closed spec fn rom(self) -> Seq<u8> {
        self.data@
    }

    /// ROM and SRAM are both non-empty.
    pub open spec fn wf(self) -> bool {
        self.rom().len() > 0 && self.sram_view().len() > 0
    }

    /// Whether ROM and SRAM are both non-empty.
    pub fn is_valid(&self) -> (r: bool)
        ensures
            r == self.wf(),
    {
        self.data.len() > 0 && self.sram.len() > 0
    }

    /// Detect the memory map (see [`detect`]), drop a copier header, and allocate the
    /// SRAM whose size the header gives.
    pub fn from_data(data: &[u8]) -> (r: Cartridge)
        requires
            data.len() > 0x200,
            pow2_nat(sram_size_byte(data@) as nat) * 1024 <= usize::MAX,
        ensures
            r.wf(),
            r.map() == detect(data@).0,
            r.rom() == rom_of(data@),
            r.sram_view() == Seq::new(pow2_nat(sram_size_byte(data@) as nat) * 1024, |i: int| 0u8),
    {
        // Figure out what kind of cartridge based on the checksum
        let checksum = compute_checksum(data);
        let without_header = copy_from(data, 0x200);
        let header_checksum = compute_checksum(&without_header);
        let (memory_map, has_header) = if checksum_matches(data, 0x007FC0, checksum) {
            (MemoryMap::LoRom, false)
        } else if checksum_matches(data, 0x00FFC0, checksum) {
            (MemoryMap::HiRom, false)
        } else if checksum_matches(data, 0x40FFC0, checksum) {
            (MemoryMap::ExHiRom, false)
        } else if checksum_matches(data, 0x007FC0 + 0x200, header_checksum) {
            (MemoryMap::LoRom, true)
        } else if checksum_matches(data, 0x00FFC0 + 0x200, header_checksum) {
            (MemoryMap::HiRom, true)
        } else {
            (MemoryMap::LoRom, false)
        };
        let rom = if has_header {
            without_header
        } else {
            copy_from(data, 0)
        };
        assert(data@.subrange(0, data@.len() as int) =~= data@);
        let n = rom[memory_map.transform_address(0x00FFD8) % rom.len()];
        let mut size: usize = 1024;
        let mut k: u8 = 0;
        proof {
            reveal_with_fuel(pow2_nat, 1);
        }
        while k < n
            invariant
                k <= n,
                n == sram_size_byte(data@),
                pow2_nat(n as nat) * 1024 <= usize::MAX,
                size == pow2_nat(k as nat) * 1024,
            decreases n - k,
        {
            proof {
                lemma_pow2_nat_mono((k + 1) as nat, n as nat);
            }
            size = size * 2;
            k = k + 1;
        }
        proof {
            lemma_pow2_nat_mono(0, k as nat);
        }
        let sram = vec_of_zeros(size);
        Cartridge { data: rom, sram, memory_map }
    }

    pub fn transform_address(&self, address: usize) -> (r: usize)
        ensures
            r == self.map().transform_spec(address),
    {
        self.memory_map.transform_address(address)
    }

    /// What reading `address` gives: the SRAM byte (the address taken modulo the SRAM
    /// size) for SRAM addresses, otherwise the ROM byte at the mapped offset (modulo the
    /// ROM size).
    pub open spec fn read_spec(self, address: usize) -> u8 {
        if self.map().is_sram_spec(address) {
            self.sram_view()[address as int % (self.sram_view().len() as int)]
        } else {
            self.rom()[self.map().transform_spec(address) % (self.rom().len() as int)]
        }
    }

    /// Write SRAM; writes elsewhere are ignored.
    pub fn write_byte(&mut self, address: usize, value: u8)
        requires
            old(self).wf(),
        ensures
            final(self).wf(),
            final(self).map() == old(self).map(),
            final(self).rom() == old(self).rom(),
            final(self).sram_view() == if old(self).map().is_sram_spec(address) {
                old(self).sram_view().update(address as int % (old(self).sram_view().len() as int), value)
            } else {
                old(self).sram_view()
            },
    {
        if self.memory_map.is_sram_address(address) {
            let i = address % self.sram.len();
            self.sram.set(i, value);
        }
    }

    pub fn read_byte(&self, address: usize) -> (r: u8)
        requires
            self.wf(),
        ensures
            r == self.read_spec(address),
    {
        if self.memory_map.is_sram_address(address) {
            self.sram[address % self.sram.len()]
        } else {
            self.data[self.transform_address(address) % self.data.len()]
        }
    }

    /// The 21-character title from the ROM header, each byte taken as a character.
    pub fn title(&self) -> (r: String)
        requires
            self.wf(),
        ensures
            r@ == Seq::new(21, |i: int| self.read_spec((0xFFC0 + i) as usize) as char),
    {
        let mut s = String::new();
        let mut i: usize = 0;
        while i < 21
            invariant
                self.wf(),
                i <= 21,
                s@ == Seq::new(i as nat, |k: int| self.read_spec((0xFFC0 + k) as usize) as char),
            decreases 21 - i,
        {
            let b = self.read_byte(0xFFC0 + i);
            push_char(&mut s, b as char);
            i = i + 1;
            assert(s@ =~= Seq::new(i as nat, |k: int| self.read_spec((0xFFC0 + k) as usize) as char));
        }
        s
    }
}

/// A copy of the part of a slice from `from` on.
fn copy_from(data: &[u8], from: usize) -> (r: Vec<u8>)
    requires
        from <= data.len(),
    ensures
        r@ == data@.subrange(from as int, data@.len() as int),
{
    let mut v: Vec<u8> = Vec::new();
    let mut i = from;
    while i < data.len()
        invariant
            from <= i <= data.len(),
            v@ == data@.subrange(from as int, i as int),
        decreases data.len() - i,
    {
        v.push(data[i]);
        i = i + 1;
        assert(v@ =~= data@.subrange(from as int, i as int));
    }
    v
}

/// A vector of `n` zero bytes.
fn vec_of_zeros(n: usize) -> (v: Vec<u8>)
    ensures
        v@ == Seq::new(n as nat, |i: int| 0u8),
{
    let mut v: Vec<u8> = Vec::new();
    let mut i: usize = 0;
    while i < n
        invariant
            i <= n,
            v@ == Seq::new(i as nat, |k: int| 0u8),
        decreases n - i,
    {
        v.push(0);
        i = i + 1;
        assert(v@ =~= Seq::new(i as nat, |k: int| 0u8));
    }
    v
}

/// LoROM maps the upper halves (0x8000 to 0xFFFF) of the banks one after the other: in
/// bank `b` the byte at 0x8000 + `k` is ROM byte `b` * 0x8000 + `k`, so a bank's last
/// byte is followed in ROM by the next bank's first. HiROM maps each bank whole: the
/// ROM offset is the address within the 4 MiB window, so consecutive addresses there
/// are consecutive in ROM.
pub proof fn lemma_rom_layout(bank: int, k: int)
    requires
        0 <= bank < 0x100,
        0 <= k < 0x8000,
    ensures
        MemoryMap::LoRom.transform_spec((bank * 0x10000 + 0x8000 + k) as usize) == bank * 0x8000 + k,
        bank < 0x40 ==> MemoryMap::HiRom.transform_spec((bank * 0x10000 + 0x8000 + k) as usize) == bank
            * 0x10000 + 0x8000 + k,
        bank < 0x40 ==> MemoryMap::HiRom.transform_spec((bank * 0x10000 + k) as usize) == bank * 0x10000 + k,
{
    let a = bank * 0x10000 + 0x8000 + k;
    assert(a % 0x8000 == k);
    assert(a / 0x10000 == bank);
}

} // verus!
