//! Instruction-execution core of an emulator for the Game Boy's 8-bit CPU:
//! register file and flags, instruction semantics, the two opcode tables,
//! the deferred interrupt-enable state and halt mode, over a byte-addressable
//! bus.
use vstd::prelude::*;

pub mod cpu;
pub mod memory;
pub mod mmu;
pub mod ppu;
pub mod registers;

verus! {

} // verus!
