use vstd::prelude::*;

use crate::errors::VmError;
use crate::register::Register;

verus! {

/// Opcode of Nop: no effect, no operand.
pub const OPCODE_NOP: u8 = 0x00;

/// Opcode of Push: the high byte is an 8-bit immediate.
pub const OPCODE_PUSH: u8 = 0x01;

/// Opcode of PopRegister: the low nibble of the high byte selects a register.
pub const OPCODE_POP_REGISTER: u8 = 0x02;

/// Opcode of AddStack: no operand.
pub const OPCODE_ADD_STACK: u8 = 0x03;

/// Reserved opcode assignment for AddRegister: no instruction word decodes to
/// it yet; the operand byte would carry the two register indices, one nibble
/// each.
pub const OPCODE_ADD_REGISTER: u8 = 0x04;

/// Opcode of Signal: the high byte is the signal code.
pub const OPCODE_SIGNAL: u8 = 0xF0;

/// One decoded operation. AddRegister is part of the representation but
/// reserved: no opcode decodes to it, and it is executable only by direct
/// construction.
#[derive(Clone, Copy, Debug, PartialEq, Eq, Structural)]
pub enum Op {
    Nop,
    Push(u8),
    PopRegister(Register),
    AddStack,
    AddRegister(Register, Register),
    Signal(u8),
}

impl Op {
    /// The opcode byte of this operation, from the explicit opcode table.
    pub open spec fn spec_value(self) -> u8 {
        match self {
            Op::Nop => OPCODE_NOP,
            Op::Push(_) => OPCODE_PUSH,
            Op::PopRegister(_) => OPCODE_POP_REGISTER,
            Op::AddStack => OPCODE_ADD_STACK,
            Op::AddRegister(_, _) => OPCODE_ADD_REGISTER,
            Op::Signal(_) => OPCODE_SIGNAL,
        }
    }

    /// Opcode byte of this operation.
    pub fn value(&self) -> (b: u8)
        ensures
            b == self.spec_value(),
    {
        match self {
            Op::Nop => OPCODE_NOP,
            Op::Push(_) => OPCODE_PUSH,
            Op::PopRegister(_) => OPCODE_POP_REGISTER,
            Op::AddStack => OPCODE_ADD_STACK,
            Op::AddRegister(_, _) => OPCODE_ADD_REGISTER,
            Op::Signal(_) => OPCODE_SIGNAL,
        }
    }

    /// The operand byte this operation encodes to: the immediate for Push, the
    /// register index for PopRegister, the code for Signal, two register
    /// nibbles for the reserved AddRegister, zero otherwise.
    pub open spec fn spec_operand(self) -> u8 {
        match self {
            Op::Nop => 0,
            Op::Push(imm) => imm,
            Op::PopRegister(r) => r.spec_idx() as u8,
            Op::AddStack => 0,
            Op::AddRegister(r1, r2) => (r1.spec_idx() + 16 * r2.spec_idx()) as u8,
            Op::Signal(code) => code,
        }
    }

    /// The instruction word this operation encodes to: opcode in the low
    /// byte, operand in the high byte.
    pub open spec fn spec_encode(self) -> u16 {
        (self.spec_value() + 256 * self.spec_operand()) as u16
    }

    /// Encodes this operation as an instruction word.
    pub fn encode(&self) -> (w: u16)
        ensures
            w == self.spec_encode(),
    {
        let operand: u8 = match self {
            Op::Nop => 0,
            Op::Push(imm) => *imm,
            Op::PopRegister(r) => r.index() as u8,
            Op::AddStack => 0,
            Op::AddRegister(r1, r2) => r1.index() as u8 + 16 * (r2.index() as u8),
            Op::Signal(code) => *code,
        };
        self.value() as u16 + 256 * (operand as u16)
    }
}

/// The operand half of an instruction word: its high byte.
pub open spec fn spec_instruction_arg(ins: u16) -> u8 {
    (ins / 256) as u8
}

/// Extracts the operand byte (the high byte) of an instruction word.
pub fn parse_instruction_arg(ins: u16) -> (b: u8)
    ensures
        b == spec_instruction_arg(ins),
{
    let shifted: u16 = (ins & 0xff00) >> 8;
    proof {
        assert((ins & 0xff00) >> 8 == ins / 256) by (bit_vector);
    }
    shifted as u8
}

/// What an instruction word decodes to. The low byte selects the opcode. For
/// PopRegister only the low nibble of the operand byte is read; non-zero
/// reserved bits in its high nibble are tolerated, as in the binary format
/// this machine inherits. A word whose opcode byte or register index is
/// undefined decodes to an error carrying that byte.
pub open spec fn spec_decode(ins: u16) -> Result<Op, VmError> {
    let opb = (ins % 256) as u8;
    if opb == OPCODE_NOP {
        Ok(Op::Nop)
    } else if opb == OPCODE_PUSH {
        Ok(Op::Push(spec_instruction_arg(ins)))
    } else if opb == OPCODE_POP_REGISTER {
        let idx = ((ins / 256) % 16) as u8;
        match Register::spec_from_u8(idx) {
            Some(r) => Ok(Op::PopRegister(r)),
            None => Err(VmError::UnknownRegister(idx)),
        }
    } else if opb == OPCODE_ADD_STACK {
        Ok(Op::AddStack)
    } else if opb == OPCODE_SIGNAL {
        Ok(Op::Signal(spec_instruction_arg(ins)))
    } else {
        Err(VmError::UnknownOpcode(opb))
    }
}

/// Decodes an instruction word into an operation, or reports the unknown
/// opcode byte or register index. Pure: the result depends on the word alone.
pub fn parse_instruction(ins: u16) -> (r: Result<Op, VmError>)
    ensures
        r == spec_decode(ins),
{
    let low: u16 = ins & 0xff;
    proof {
        assert(ins & 0xff == ins % 256) by (bit_vector);
    }
    let opb: u8 = low as u8;
    if opb == OPCODE_NOP {
        Ok(Op::Nop)
    } else if opb == OPCODE_PUSH {
        Ok(Op::Push(parse_instruction_arg(ins)))
    } else if opb == OPCODE_POP_REGISTER {
        let nib: u16 = (ins & 0x0f00) >> 8;
        proof {
            assert((ins & 0x0f00) >> 8 == (ins / 256) % 16) by (bit_vector);
        }
        let idx: u8 = nib as u8;
        match Register::from_u8(idx) {
            Some(r) => Ok(Op::PopRegister(r)),
            None => Err(VmError::UnknownRegister(idx)),
        }
    } else if opb == OPCODE_ADD_STACK {
        Ok(Op::AddStack)
    } else if opb == OPCODE_SIGNAL {
        Ok(Op::Signal(parse_instruction_arg(ins)))
    } else {
        Err(VmError::UnknownOpcode(opb))
    }
}

/// Decoding is deterministic: equal instruction words decode to equal
/// results, on every call.
pub proof fn lemma_decode_deterministic(w1: u16, w2: u16)
    requires
        w1 == w2,
    ensures
        spec_decode(w1) == spec_decode(w2),
{
}

/// Round trip: every operation other than the reserved AddRegister, once
/// encoded and decoded again, comes back unchanged.
pub proof fn lemma_encode_decode(op: Op)
    requires
        !(op is AddRegister),
    ensures
        spec_decode(op.spec_encode()) == Ok::<Op, VmError>(op),
{
    let v = op.spec_value() as int;
    let a = op.spec_operand() as int;
    let w = op.spec_encode();
    assert(w == v + 256 * a);
    assert((v + 256 * a) % 256 == v % 256) by (nonlinear_arith)
        requires
            0 <= v < 256,
            0 <= a < 256,
    ;
    assert((v + 256 * a) / 256 == a) by (nonlinear_arith)
        requires
            0 <= v < 256,
            0 <= a < 256,
    ;
    match op {
        Op::PopRegister(r) => {
            crate::register::lemma_from_u8_of_idx(r);
        },
        _ => {},
    }
}

/// An instruction word whose opcode byte is none of the defined opcodes fails
/// to decode, reporting exactly that byte.
pub proof fn lemma_unknown_opcode(w: u16)
    requires
        ({
            let opb = (w % 256) as u8;
            opb != OPCODE_NOP && opb != OPCODE_PUSH && opb != OPCODE_POP_REGISTER && opb
                != OPCODE_ADD_STACK && opb != OPCODE_SIGNAL
        }),
    ensures
        spec_decode(w) == Err::<Op, VmError>(VmError::UnknownOpcode((w % 256) as u8)),
{
}

/// No instruction word decodes to the reserved AddRegister operation.
pub proof fn lemma_add_register_undecodable(w: u16)
    ensures
        !(spec_decode(w) matches Ok(op) && op is AddRegister),
{
}

} // verus!
