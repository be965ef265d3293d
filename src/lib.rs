//! An Intel 8080 instruction interpreter: fetch, decode and execute over a 64 KiB
//! memory, with every instruction proved against a model of its effect.

pub mod alu;
pub mod cpu;
pub mod device;
pub mod disassembler;
pub mod instruction;
pub mod laws;
pub mod memory;
pub mod registers;
pub mod semantics;

use vstd::prelude::*;

verus! {

/// The outer loop that owns a processor and steps it: `next` runs one instruction and
/// handles what it reported, `run` steps until the machine decides to stop.
pub trait Machine {
    fn next(&mut self);

    fn run(&mut self);
}

} // verus!
