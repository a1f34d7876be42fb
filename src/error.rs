use vstd::prelude::*;

verus! {

/// What can go wrong while the machine runs or is set up.
#[derive(Debug, Clone, Copy, PartialEq, Eq, Structural)]
pub enum Chip8Error {
    /// The word matches no rule of the decoder.
    BadInstruction(u16),
    /// A call was made with sixteen return addresses already saved.
    StackOverflow,
    /// A return was made with no return address saved.
    StackUnderflow,
    /// An image or a start address does not fit the 4096-byte address space.
    AddressOverflow,
}

} // verus!
