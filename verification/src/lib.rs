pub mod bits;
pub mod text;
pub mod bus_event;
pub mod snes;
pub mod spc700;
pub mod wdc65816;
