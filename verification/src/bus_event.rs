use vstd::prelude::*;

verus! {

/// One cycle on a processor's address bus, as seen by the memory behind it.
#[derive(Clone, Copy)]
pub enum BusEvent {
    /// A byte was read from an address.
    Read { address: usize, value: u8 },
    /// A byte was written to an address.
    Write { address: usize, value: u8 },
    /// An internal cycle with no memory access.
    Io,
}

/// The byte that an event carried (0 for an internal cycle).
pub open spec fn event_value(e: BusEvent) -> u8 {
    match e {
        BusEvent::Read { value, .. } => value,
        BusEvent::Write { value, .. } => value,
        BusEvent::Io => 0,
    }
}

/// The byte carried by the `i`-th event of a log.
pub open spec fn value_at(log: Seq<BusEvent>, i: int) -> u8 {
    event_value(log[i])
}

/// `log` consists of `prefix` followed by `n` further events.
pub open spec fn extends_by(prefix: Seq<BusEvent>, log: Seq<BusEvent>, n: nat) -> bool {
    &&& log.len() == prefix.len() + n
    &&& log.subrange(0, prefix.len() as int) == prefix
}

} // verus!
