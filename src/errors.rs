use vstd::prelude::*;

verus! {

/// The faults that stop a run of the emulator.
#[derive(Debug, PartialEq, Eq)]
pub enum Chip8Error {
    /// The program image holds this many bytes, more than fit above the program start
    /// in a memory of the second size.
    TooManyLines(usize, usize),
    /// The instruction word matches no instruction.
    UnrecognizedOpcode(u16),
    /// A call was made with every slot of the call stack in use.
    StackOverflow,
    /// A return was made with no call in progress.
    StackUnderflow,
}

} // verus!
