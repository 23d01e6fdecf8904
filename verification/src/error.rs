use vstd::prelude::*;

verus! {

/// The conditions that stop the machine. Each is reported to the caller and
/// none is retried: the same state would fail the same way again.
#[derive(Clone, Copy, Debug, PartialEq, Eq, Structural)]
pub enum Error {
    /// The instruction word has no meaning: its top nibble is unknown, or its
    /// sub-opcode is unknown within the groups 0x0, 0x8, 0xE and 0xF.
    UnrecognizedInstruction,
    /// A call was made with sixteen return addresses already on the stack.
    StackOverflow,
    /// A return was made with no return address on the stack.
    StackUnderflow,
    /// The program counter, an access through the index register or a jump
    /// left the memory.
    MemoryOutOfBounds,
    /// The program does not fit between the load address and the end of memory.
    RomTooLarge,
    /// An operand is outside its field: a register or key above 15, a sprite
    /// height above 15 or an address above 0xFFF.
    InvalidOperand,
}

} // verus!
