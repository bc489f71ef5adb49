use vstd::prelude::*;

use crate::wdc65816::processor::wrap16;
use crate::wdc65816::u24::u24;
use vstd::std_specs::convert::FromSpecImpl;

verus! {

/// The 24-bit address bus used by the processor to read data
#[derive(Copy, Clone)]
pub struct Bus {
    pub bank: u8,
    pub address: u16,
}

impl Bus {
    /// The full 24-bit address on the bus.
    pub open spec fn full(self) -> int {
        self.bank * 0x10000 + self.address
    }

    pub fn new(bank: u8, address: u16) -> (r: Bus)
        ensures
            r.bank == bank,
            r.address == address,
    {
        Bus { bank, address }
    }

    /// Creates a new bus with the offset given
    /// Wraps around the lower 16 bit address
    pub fn offset(&self, value: u16) -> (r: Bus)
        ensures
            r.bank == self.bank,
            r.address == wrap16(self.address + value),
    {
        Bus::new(self.bank, self.address.wrapping_add(value))
    }

    pub fn with_bank(&self, bank: u8) -> (r: Bus)
        ensures
            r.bank == bank,
            r.address == self.address,
    {
        Bus { bank, address: self.address }
    }

    /// The bus holding a 24-bit address (the bits above 24 are ignored).
    pub fn from_u24(value: u24) -> (r: Bus)
        ensures
            r.full() == value.val(),
    {
        Bus::from(value.value())
    }

    /// The bus as a 24-bit address.
    pub fn to_u24(&self) -> (r: u24)
        ensures
            r.val() == self.full(),
    {
        u24::from(self.bank, self.address)
    }
}

/// The bus for a number: the bank is bits 16 to 23, the address the low 16 bits.
pub open spec fn bus_of(v: u32) -> Bus {
    Bus { bank: ((v / 0x10000) % 0x100) as u8, address: (v % 0x10000) as u16 }
}

impl From<u32> for Bus {
    fn from(value: u32) -> (r: Bus) {
        proof {
            crate::bits::lemma_u32(value);
        }
        Bus::new(((value & 0xFF0000) >> 16u32) as u8, (value & 0xFFFF) as u16)
    }
}

impl FromSpecImpl<u32> for Bus {
    open spec fn obeys_from_spec() -> bool {
        true
    }

    open spec fn from_spec(v: u32) -> Bus {
        bus_of(v)
    }
}

impl From<Bus> for u32 {
    fn from(value: Bus) -> (r: u32) {
        (value.bank as u32) * 0x10000 + (value.address as u32)
    }
}

impl FromSpecImpl<Bus> for u32 {
    open spec fn obeys_from_spec() -> bool {
        true
    }

    open spec fn from_spec(v: Bus) -> u32 {
        v.full() as u32
    }
}

/// Converting a 24-bit address to a bus and back gives it back.
pub proof fn lemma_bus_roundtrip(value: u32)
    requires
        value < 0x1000000,
    ensures
        bus_of(value).full() == value,
{
}

} // verus!
