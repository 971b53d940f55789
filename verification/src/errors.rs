use vstd::prelude::*;

verus! {

/// A failure of the machine, carrying the offending value: the unknown opcode
/// or register index found while decoding, the faulting memory address, the
/// stack pointer that was too small to pop from, or the signal code that no
/// handler was registered for. Handlers return the same type, and the engine
/// forwards their failures unchanged.
#[derive(Clone, Copy, Debug, PartialEq, Eq, Structural)]
pub enum VmError {
    /// The opcode byte of a fetched word selects no defined operation.
    UnknownOpcode(u8),
    /// The register index of a PopRegister word names none of the eight registers.
    UnknownRegister(u8),
    /// The program counter does not point at two readable bytes.
    FetchFault(u16),
    /// A two-byte read ran past the end of memory.
    ReadFault(u16),
    /// A two-byte write ran past the end of memory.
    WriteFault(u16),
    /// A pop was attempted with the stack pointer below two.
    StackUnderflow(u16),
    /// A Signal operation named a code with no registered handler.
    UnknownSignal(u8),
}

/// A failure of the assembler: either a token byte that is no base-16 digit,
/// or a token whose value does not fit in eight bits.
#[derive(Clone, Copy, Debug, PartialEq, Eq, Structural)]
pub enum AsmError {
    /// The byte is not a base-16 digit.
    BadDigit(u8),
    /// The token's value exceeds 0xFF.
    TooLarge,
}

} // verus!
