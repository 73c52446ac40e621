//! Physical memory: the RAM range of the board and a word-addressed model of its contents.
use std::collections::HashMap;
pub use crate::page::{kaddr, paddr};
use vstd::prelude::*;

verus! {

broadcast use vstd::std_specs::hash::group_hash_axioms;

/// First physical address of RAM.
pub const MEM_START: usize = 0x8000_0000;

/// First physical address past the end of RAM.
pub const MEM_END: usize = 0xc000_0000;

/// Reads a 64-bit word of a memory map; a word that was never written reads as zero.
pub open spec fn read_word(mem: Map<u64, u64>, addr: u64) -> u64 {
    if mem.contains_key(addr) {
        mem[addr]
    } else {
        0
    }
}

/// Physical memory seen as 64-bit words keyed by their byte address.
///
/// Words that were never written read as zero.
pub struct PhysMem {
    words: HashMap<u64, u64>,
}

impl View for PhysMem {
    type V = Map<u64, u64>;

    closed spec fn view(&self) -> Map<u64, u64> {
        self.words@
    }
}

impl PhysMem {
    /// Memory in which every word reads as zero.
    pub fn new() -> (m: Self)
        ensures
            m@ == Map::<u64, u64>::empty(),
    {
        PhysMem { words: HashMap::new() }
    }

    /// The word at `addr`.
    pub fn read(&self, addr: u64) -> (v: u64)
        ensures
            v == read_word(self@, addr),
    {
        match self.words.get(&addr) {
            Some(v) => *v,
            None => 0,
        }
    }

    /// Stores `value` at `addr`.
    pub fn write(&mut self, addr: u64, value: u64)
        ensures
            final(self)@ == old(self)@.insert(addr, value),
    {
        self.words.insert(addr, value);
    }
}

} // verus!
