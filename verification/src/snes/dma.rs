use vstd::prelude::*;

use crate::wdc65816::processor::wrap16;

verus! {

/// How the source address moves after each byte of a general DMA.
#[derive(Copy, Clone, Debug)]
pub enum AddressAdjustMode {
    Increment,
    Decrement,
    Fixed,
}

impl AddressAdjustMode {
    /// The mode's number in the DMA parameter register.
    pub open spec fn code(self) -> u8 {
        match self {
            AddressAdjustMode::Increment => 0,
            AddressAdjustMode::Decrement => 2,
            AddressAdjustMode::Fixed => 1,
        }
    }

    pub fn default() -> (r: AddressAdjustMode)
        ensures
            r == AddressAdjustMode::Increment,
    {
        AddressAdjustMode::Increment
    }
}

impl From<AddressAdjustMode> for u8 {
    fn from(value: AddressAdjustMode) -> (r: u8) {
        match value {
            AddressAdjustMode::Increment => 0,
            AddressAdjustMode::Decrement => 2,
            AddressAdjustMode::Fixed => 1,
        }
    }
}

impl vstd::std_specs::convert::FromSpecImpl<AddressAdjustMode> for u8 {
    open spec fn obeys_from_spec() -> bool {
        true
    }

    open spec fn from_spec(v: AddressAdjustMode) -> u8 {
        v.code()
    }
}

/// The destination register offsets of each transfer pattern.
pub open spec fn pattern(i: int) -> Seq<u8> {
    if i == 0 {
        seq![0]
    } else if i == 1 {
        seq![0, 1]
    } else if i == 2 {
        seq![0, 0]
    } else if i == 3 {
        seq![0, 0, 1, 1]
    } else if i == 4 {
        seq![0, 1, 2, 3]
    } else if i == 5 {
        seq![0, 1, 0, 1]
    } else if i == 6 {
        seq![0, 0]
    } else {
        seq![0, 0, 1, 1]
    }
}

/// What each transfer pattern of the DMA parameter register writes, byte `k` of a unit
/// going to the destination register plus the offset given: pattern 0 writes one
/// register once; patterns 1 and 4 write two and four consecutive registers once each;
/// patterns 2 and 6 write one register twice; patterns 3 and 7 write two consecutive
/// registers twice each; pattern 5 writes two consecutive registers alternately, twice.
pub proof fn lemma_transfer_patterns(i: int, k: int)
    requires
        0 <= i < 8,
        0 <= k < pattern(i).len(),
    ensures
        pattern(i).len() == if i == 0 { 1int } else if i == 1 || i == 2 || i == 6 { 2int } else { 4int },
        i == 0 || i == 2 || i == 6 ==> pattern(i)[k] == 0,
        i == 1 || i == 4 ==> pattern(i)[k] == k,
        i == 3 || i == 7 ==> pattern(i)[k] == k / 2,
        i == 5 ==> pattern(i)[k] == k % 2,
{
}

/// One DMA/HDMA channel.
#[derive(Copy, Clone)]
pub struct Channel {
    pub transfer_pattern_index: usize,
    pub adjust_mode: AddressAdjustMode,
    pub indirect: bool,
    pub direction: bool,
    pub dest_addr: usize,
    /// The lower 16 bits of the DMA address
    pub src_addr: u16,
    /// The bank of the DMA address
    pub src_bank: u8,
    /// The byte counter if using a regular DMA, or the
    /// indirect table address if using HDMA
    pub byte_counter: u16,
    /// How many bytes have been transferred so far
    pub num_bytes_transferred: u16,
    /// Whether the DMA is being executed right now
    pub is_executing: bool,
    /// The line counter, if enabled as HDMA
    pub hdma_line_counter: u8,
    /// Bank of the indirect HDMA data.
    /// If using an indirect HDMA table, this is the bank of the data's address.
    pub indirect_bank: u8,
    /// Current address of the indirect data, if used
    pub indirect_data_addr: u16,
    /// Address of the HDMA table
    pub hdma_table_addr: u16,
    /// Bank of the HDMA table
    pub hdma_table_bank: u8,
    /// Current address of the HDMA table
    /// This should always point to the next table entry to be read.
    /// At the end of VBlank it is initialized to [`Channel::hdma_table_addr`]
    pub current_hdma_table_addr: u16,
    pub hdma_repeat: bool,
    pub hdma_enable: bool,
}

impl Channel {
    /// A channel with every register cleared.
    pub open spec fn default_spec() -> Channel {
        Channel {
            transfer_pattern_index: 0,
            adjust_mode: AddressAdjustMode::Increment,
            indirect: false,
            direction: false,
            dest_addr: 0,
            src_addr: 0,
            src_bank: 0,
            byte_counter: 0,
            num_bytes_transferred: 0,
            is_executing: false,
            hdma_line_counter: 0,
            indirect_bank: 0,
            hdma_table_bank: 0,
            hdma_table_addr: 0,
            current_hdma_table_addr: 0,
            indirect_data_addr: 0,
            hdma_repeat: false,
            hdma_enable: false,
        }
    }

    pub fn default() -> (r: Channel)
        ensures
            r == Self::default_spec(),
    {
        Channel {
            transfer_pattern_index: 0,
            adjust_mode: AddressAdjustMode::Increment,
            indirect: false,
            direction: false,
            dest_addr: 0,
            src_addr: 0,
            src_bank: 0,
            byte_counter: 0,
            num_bytes_transferred: 0,
            is_executing: false,
            hdma_line_counter: 0,
            indirect_bank: 0,
            hdma_table_bank: 0,
            hdma_table_addr: 0,
            current_hdma_table_addr: 0,
            indirect_data_addr: 0,
            hdma_repeat: false,
            hdma_enable: false,
        }
    }

    /// The destination register offsets, one per byte of a transfer unit.
    pub fn transfer_pattern(&self) -> (r: Vec<u8>)
        requires
            self.transfer_pattern_index < 8,
        ensures
            r@ == pattern(self.transfer_pattern_index as int),
    {
        let i = self.transfer_pattern_index;
        let r = if i == 0 {
            vec![0]
        } else if i == 1 {
            vec![0, 1]
        } else if i == 2 {
            vec![0, 0]
        } else if i == 3 {
            vec![0, 0, 1, 1]
        } else if i == 4 {
            vec![0, 1, 2, 3]
        } else if i == 5 {
            vec![0, 1, 0, 1]
        } else if i == 6 {
            vec![0, 0]
        } else {
            vec![0, 0, 1, 1]
        };
        assert(r@ =~= pattern(i as int));
        r
    }

    /// The number of bytes in a transfer unit.
    pub fn pattern_len(&self) -> (r: u16)
        requires
            self.transfer_pattern_index < 8,
        ensures
            r == pattern(self.transfer_pattern_index as int).len(),
    {
        let p = self.transfer_pattern();
        p.len() as u16
    }

    /// The 24-bit address of the HDMA table entry `offset` bytes past the current one.
    pub fn current_hdma_table_addr(&self, offset: u16) -> (r: usize)
        ensures
            r == self.hdma_table_bank * 0x10000 + wrap16(self.current_hdma_table_addr + offset),
    {
        self.hdma_table_bank as usize * 0x1_0000 + self.current_hdma_table_addr.wrapping_add(offset) as usize
    }

    /// Move the table address past the current entry: three bytes for an indirect
    /// table, otherwise the line counter and one transfer unit.
    pub fn inc_table_addr(&mut self)
        requires
            old(self).transfer_pattern_index < 8,
            old(self).current_hdma_table_addr + (if old(self).indirect { 3 } else {
                1 + pattern(old(self).transfer_pattern_index as int).len()
            }) <= u16::MAX,
        ensures
            *final(self) == (Channel {
                current_hdma_table_addr: (old(self).current_hdma_table_addr + (if old(self).indirect { 3 } else {
                    1 + pattern(old(self).transfer_pattern_index as int).len()
                })) as u16,
                ..*old(self)
            }),
    {
        let step = if self.indirect { 3 } else { 1 + self.pattern_len() };
        self.current_hdma_table_addr = self.current_hdma_table_addr + step;
    }

    /// The 24-bit address the next byte is read from: the indirect data address for
    /// indirect transfers, otherwise the source address.
    pub open spec fn full_src_addr_spec(self) -> int {
        if self.indirect {
            self.indirect_bank * 0x10000 + self.indirect_data_addr
        } else {
            self.src_bank * 0x10000 + self.src_addr
        }
    }

    pub fn full_src_addr(&self) -> (r: usize)
        ensures
            r == self.full_src_addr_spec(),
    {
        if self.indirect {
            self.indirect_bank as usize * 0x10000 + self.indirect_data_addr as usize
        } else {
            self.src_bank as usize * 0x10000 + self.src_addr as usize
        }
    }

    pub fn is_hdma(&self) -> (r: bool)
        ensures
            r == self.hdma_enable,
    {
        self.hdma_enable
    }

    /// The number of bytes to transfer: one transfer unit for HDMA, otherwise the byte
    /// counter.
    pub fn get_num_bytes(&self) -> (r: u16)
        requires
            self.transfer_pattern_index < 8,
        ensures
            r == if self.hdma_enable {
                pattern(self.transfer_pattern_index as int).len() as u16
            } else {
                self.byte_counter
            },
    {
        if self.is_hdma() {
            self.pattern_len()
        } else {
            self.byte_counter
        }
    }

    /// The channel after its source moves on by one byte: the indirect data address,
    /// or for HDMA the source address, goes up by one; otherwise the adjust mode decides.
    pub open spec fn src_moved(self) -> Channel {
        if self.indirect {
            Channel { indirect_data_addr: wrap16(self.indirect_data_addr + 1), ..self }
        } else {
            Channel {
                src_addr: if self.hdma_enable {
                    wrap16(self.src_addr + 1)
                } else {
                    match self.adjust_mode {
                        AddressAdjustMode::Increment => wrap16(self.src_addr + 1),
                        AddressAdjustMode::Decrement => wrap16(self.src_addr - 1),
                        AddressAdjustMode::Fixed => self.src_addr,
                    }
                },
                ..self
            }
        }
    }

    /// The number of bytes a transfer moves (see [`Channel::get_num_bytes`]).
    pub open spec fn num_bytes(self) -> u16 {
        if self.hdma_enable {
            pattern(self.transfer_pattern_index as int).len() as u16
        } else {
            self.byte_counter
        }
    }

    /// Increment the source by 1 byte every time a byte is DMAed
    pub fn inc_src_addr(&mut self)
        ensures
            *final(self) == old(self).src_moved(),
            old(self).indirect ==> *final(self) == (Channel {
                indirect_data_addr: wrap16(old(self).indirect_data_addr + 1),
                ..*old(self)
            }),
            !old(self).indirect ==> *final(self) == (Channel {
                src_addr: if old(self).hdma_enable {
                    wrap16(old(self).src_addr + 1)
                } else {
                    match old(self).adjust_mode {
                        AddressAdjustMode::Increment => wrap16(old(self).src_addr + 1),
                        AddressAdjustMode::Decrement => wrap16(old(self).src_addr - 1),
                        AddressAdjustMode::Fixed => old(self).src_addr,
                    }
                },
                ..*old(self)
            }),
    {
        if self.indirect {
            self.indirect_data_addr = self.indirect_data_addr.wrapping_add(1);
        } else {
            if self.is_hdma() {
                self.src_addr = self.src_addr.wrapping_add(1);
            } else {
                match self.adjust_mode {
                    AddressAdjustMode::Increment => self.src_addr = self.src_addr.wrapping_add(1),
                    AddressAdjustMode::Decrement => self.src_addr = self.src_addr.wrapping_sub(1),
                    AddressAdjustMode::Fixed => {},
                }
            }
        }
    }
}

} // verus!
