//! A small instruction-set virtual machine.
//!
//! Instructions are 16-bit words: the low byte selects the opcode, the high
//! byte carries the operand. The machine owns a register file of eight 16-bit
//! cells, a fixed-capacity byte memory holding both the program and an upward
//! growing operand stack, a halt flag, and a table of host-supplied signal
//! handlers. Each `step` performs one fetch-decode-execute cycle.

pub mod assembler;
pub mod errors;
pub mod machine;
pub mod memory;
pub mod op;
pub mod register;
