//! The raw cartridge image handed over by whoever loaded it.

use vstd::prelude::*;

verus! {

/// A cartridge image: its bytes and how many there are.
pub struct CartridgeInfo {
    pub mem: Vec<u8>,
    pub size: usize,
}

impl CartridgeInfo {
    /// Wraps loaded bytes, recording their count.
    pub fn new(mem: Vec<u8>) -> (r: CartridgeInfo)
        ensures
            r.mem@ == mem@,
            r.size == mem@.len(),
    {
        let size = mem.len();
        CartridgeInfo { mem, size }
    }
}

} // verus!
