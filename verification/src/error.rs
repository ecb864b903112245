use vstd::prelude::*;

verus! {

/// The fatal conditions the engine can report. Every variant aborts the
/// current run: there is no recoverable tier, and no instruction is ever
/// applied partially.
#[derive(Clone, Copy, Debug, PartialEq, Eq, Structural)]
pub enum Chip8Error {
    /// The fetched word matches no instruction; carries the offending
    /// program counter and the raw word.
    DecodeError { pc: u16, word: u16 },
    /// A subroutine call arrived with the stack already at capacity.
    StackOverflow { pc: u16, word: u16 },
    /// A subroutine return arrived with an empty stack.
    StackUnderflow { pc: u16, word: u16 },
    /// An address reached past the end of memory.
    OutOfBounds { address: u16 },
}

} // verus!
