use vstd::prelude::*;

verus! {

/// The closed set of register names. Each maps to a fixed index into the
/// register file; SP is the stack pointer and PC the program counter, but both
/// are otherwise ordinary 16-bit cells.
#[derive(Clone, Copy, Debug, PartialEq, Eq, Structural)]
pub enum Register {
    A,
    B,
    C,
    M,
    SP,
    PC,
    BP,
    FLAGS,
}

impl Register {
    /// Index of this register in the register file, in declaration order.
    pub open spec fn spec_idx(self) -> int {
        match self {
            Register::A => 0,
            Register::B => 1,
            Register::C => 2,
            Register::M => 3,
            Register::SP => 4,
            Register::PC => 5,
            Register::BP => 6,
            Register::FLAGS => 7,
        }
    }

    /// Executable mapping from a register name to its index.
    pub fn index(&self) -> (i: usize)
        ensures
            i == self.spec_idx(),
            i < 8,
    {
        match self {
            Register::A => 0,
            Register::B => 1,
            Register::C => 2,
            Register::M => 3,
            Register::SP => 4,
            Register::PC => 5,
            Register::BP => 6,
            Register::FLAGS => 7,
        }
    }

    /// The register whose index is `v`, if `v` is below eight.
    pub open spec fn spec_from_u8(v: u8) -> Option<Register> {
        if v == 0 {
            Some(Register::A)
        } else if v == 1 {
            Some(Register::B)
        } else if v == 2 {
            Some(Register::C)
        } else if v == 3 {
            Some(Register::M)
        } else if v == 4 {
            Some(Register::SP)
        } else if v == 5 {
            Some(Register::PC)
        } else if v == 6 {
            Some(Register::BP)
        } else if v == 7 {
            Some(Register::FLAGS)
        } else {
            None
        }
    }

    /// Looks a register up by its numeric index; indices eight and above name
    /// no register.
    pub fn from_u8(v: u8) -> (r: Option<Register>)
        ensures
            r == Register::spec_from_u8(v),
    {
        match v {
            0 => Some(Register::A),
            1 => Some(Register::B),
            2 => Some(Register::C),
            3 => Some(Register::M),
            4 => Some(Register::SP),
            5 => Some(Register::PC),
            6 => Some(Register::BP),
            7 => Some(Register::FLAGS),
            _ => None,
        }
    }
}

/// Index and lookup are mutually inverse: looking a register's own index up
/// yields that register again.
pub proof fn lemma_from_u8_of_idx(r: Register)
    ensures
        Register::spec_from_u8(r.spec_idx() as u8) == Some(r),
{
}

} // verus!
