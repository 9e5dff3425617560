//! The cartridge side of the machine: header decoding, the memory bank
//! controllers and the bus through which the processor reaches them.

pub mod bus;
pub mod cartridge_reader;
pub mod mmu;
