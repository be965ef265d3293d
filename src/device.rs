use vstd::prelude::*;

verus! {

/// A device that the outer machine drives one step at a time: fetch an opcode, then
/// execute it and receive what it reports.
pub trait Device<T> {
    fn fetch(&mut self) -> u8;

    fn exec(&mut self, op: u8) -> T;
}

} // verus!
