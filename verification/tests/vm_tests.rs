use vm::errors::VmError;
use vm::machine::{signal_halt, HaltHandler, Machine, MachineCore, MEM_SIZE};
use vm::memory::LinearMemory;
use vm::op::{parse_instruction, parse_instruction_arg, Op};
use vm::register::Register;

#[test]
fn new_machine_is_zeroed() {
    let m: Machine<HaltHandler> = Machine::new();
    assert_eq!(m.get_register(Register::A), 0);
    assert_eq!(m.get_register(Register::B), 0);
    assert_eq!(m.get_register(Register::C), 0);
    assert_eq!(m.get_register(Register::M), 0);
    assert_eq!(m.get_register(Register::SP), 0);
    assert_eq!(m.get_register(Register::PC), 0);
    assert_eq!(m.get_register(Register::BP), 0);
    assert_eq!(m.get_register(Register::FLAGS), 0);
    assert!(!m.is_halted());
}

#[test]
fn decode_is_deterministic() {
    let w: u16 = 0x4201;
    assert_eq!(parse_instruction(w), parse_instruction(w));
    let bad: u16 = 0x00AB;
    assert_eq!(parse_instruction(bad), parse_instruction(bad));
}

#[test]
fn decode_round_trip_per_opcode() {
    let ops = [
        Op::Nop,
        Op::Push(0x42),
        Op::PopRegister(Register::C),
        Op::AddStack,
        Op::Signal(0x7F),
    ];
    for op in ops {
        let w = op.encode();
        assert_eq!(parse_instruction(w), Ok(op));
    }
}

#[test]
fn decode_unknown_opcode_reports_the_byte() {
    assert_eq!(parse_instruction(0x00AB), Err(VmError::UnknownOpcode(0xAB)));
    assert_eq!(parse_instruction(0xFFFE), Err(VmError::UnknownOpcode(0xFE)));
}

#[test]
fn decode_unknown_register_reports_the_index() {
    // opcode 0x02, register index 8: no such register
    assert_eq!(parse_instruction(0x0802), Err(VmError::UnknownRegister(8)));
    assert_eq!(parse_instruction(0x0F02), Err(VmError::UnknownRegister(15)));
}

#[test]
fn decode_tolerates_reserved_operand_bits() {
    // opcode 0x02, operand byte 0xF1: the high nibble is ignored, the low
    // nibble selects register B
    assert_eq!(parse_instruction(0xF102), Ok(Op::PopRegister(Register::B)));
}

#[test]
fn operand_byte_is_the_high_byte() {
    assert_eq!(parse_instruction_arg(0xAB01), 0xAB);
    assert_eq!(parse_instruction_arg(0x0001), 0x00);
}

#[test]
fn opcode_bytes_follow_the_table() {
    assert_eq!(Op::Nop.value(), 0x00);
    assert_eq!(Op::Push(9).value(), 0x01);
    assert_eq!(Op::PopRegister(Register::A).value(), 0x02);
    assert_eq!(Op::AddStack.value(), 0x03);
    assert_eq!(Op::AddRegister(Register::A, Register::B).value(), 0x04);
    assert_eq!(Op::Signal(0).value(), 0xF0);
}

#[test]
fn register_from_u8_covers_exactly_eight() {
    assert_eq!(Register::from_u8(0), Some(Register::A));
    assert_eq!(Register::from_u8(1), Some(Register::B));
    assert_eq!(Register::from_u8(2), Some(Register::C));
    assert_eq!(Register::from_u8(3), Some(Register::M));
    assert_eq!(Register::from_u8(4), Some(Register::SP));
    assert_eq!(Register::from_u8(5), Some(Register::PC));
    assert_eq!(Register::from_u8(6), Some(Register::BP));
    assert_eq!(Register::from_u8(7), Some(Register::FLAGS));
    assert_eq!(Register::from_u8(8), None);
    assert_eq!(Register::from_u8(0xFF), None);
}

#[test]
fn memory_word_access_at_the_last_valid_offsets() {
    let mut mem = LinearMemory::new(MEM_SIZE);
    let last: u16 = (MEM_SIZE - 2) as u16;
    assert!(mem.write2(last, 0xBEEF));
    assert_eq!(mem.read2(last), Some(0xBEEF));
    // one byte further: refused, and nothing changes, not even the low byte
    assert!(!mem.write2(last + 1, 0x1234));
    assert_eq!(mem.read2(last + 1), None);
    assert_eq!(mem.read(last), Some(0xEF));
    assert_eq!(mem.read(last + 1), Some(0xBE));
}

#[test]
fn memory_byte_access_is_bounds_checked() {
    let mut mem = LinearMemory::new(MEM_SIZE);
    assert_eq!(mem.read(0), Some(0));
    assert!(mem.write((MEM_SIZE - 1) as u16, 7));
    assert_eq!(mem.read((MEM_SIZE - 1) as u16), Some(7));
    assert_eq!(mem.read(MEM_SIZE as u16), None);
    assert!(!mem.write(MEM_SIZE as u16, 7));
}

#[test]
fn memory_bulk_load_is_all_or_nothing() {
    let mut mem = LinearMemory::new(16);
    let data = vec![1u8, 2, 3];
    assert!(!mem.load_from_vec(&data, 14));
    assert_eq!(mem.read(14), Some(0));
    assert_eq!(mem.read(15), Some(0));
    assert!(mem.load_from_vec(&data, 13));
    assert_eq!(mem.read(13), Some(1));
    assert_eq!(mem.read(14), Some(2));
    assert_eq!(mem.read(15), Some(3));
}

#[test]
fn push_then_pop_returns_the_value_and_the_stack_pointer() {
    let mut m: Machine<HaltHandler> = Machine::new();
    assert_eq!(m.push(0xFFFF), Ok(()));
    assert_eq!(m.get_register(Register::SP), 2);
    assert_eq!(m.pop(), Ok(0xFFFF));
    assert_eq!(m.get_register(Register::SP), 0);
}

#[test]
fn pop_with_small_stack_pointer_fails_cleanly() {
    let mut m: Machine<HaltHandler> = Machine::new();
    assert_eq!(m.pop(), Err(VmError::StackUnderflow(0)));
    assert_eq!(m.get_register(Register::SP), 0);
}

#[test]
fn pop_with_stack_pointer_past_memory_is_a_read_fault() {
    let mut m: Machine<HaltHandler> = Machine::new();
    assert_eq!(m.push(0x3000), Ok(()));
    assert_eq!(m.execute(Op::PopRegister(Register::SP)), Ok(()));
    assert_eq!(m.get_register(Register::SP), 0x3000);
    assert_eq!(m.pop(), Err(VmError::ReadFault(0x2FFE)));
    assert_eq!(m.get_register(Register::SP), 0x3000);
}

#[test]
fn push_with_stack_pointer_past_memory_is_a_write_fault() {
    let mut m: Machine<HaltHandler> = Machine::new();
    assert_eq!(m.push(0x1FFF), Ok(()));
    assert_eq!(m.execute(Op::PopRegister(Register::SP)), Ok(()));
    assert_eq!(m.push(1), Err(VmError::WriteFault(0x1FFF)));
    assert_eq!(m.get_register(Register::SP), 0x1FFF);
}

#[test]
fn add_stack_wraps_around_at_the_boundary() {
    let mut m: Machine<HaltHandler> = Machine::new();
    assert_eq!(m.push(0xFFFF), Ok(()));
    assert_eq!(m.push(1), Ok(()));
    assert_eq!(m.execute(Op::AddStack), Ok(()));
    assert_eq!(m.pop(), Ok(0));
}

#[test]
fn add_stack_failure_is_not_rolled_back() {
    let mut m: Machine<HaltHandler> = Machine::new();
    assert_eq!(m.push(5), Ok(()));
    // the first pop succeeds, the second underflows; the first value is gone
    assert_eq!(m.execute(Op::AddStack), Err(VmError::StackUnderflow(0)));
    assert_eq!(m.get_register(Register::SP), 0);
}

#[test]
fn add_register_works_by_direct_construction() {
    let mut m: Machine<HaltHandler> = Machine::new();
    assert_eq!(m.push(7), Ok(()));
    assert_eq!(m.execute(Op::PopRegister(Register::A)), Ok(()));
    assert_eq!(m.push(9), Ok(()));
    assert_eq!(m.execute(Op::PopRegister(Register::B)), Ok(()));
    assert_eq!(m.execute(Op::AddRegister(Register::A, Register::B)), Ok(()));
    assert_eq!(m.get_register(Register::A), 16);
    assert_eq!(m.get_register(Register::B), 9);
}

#[test]
fn add_register_wraps_around() {
    let mut m: Machine<HaltHandler> = Machine::new();
    assert_eq!(m.push(0xFFFF), Ok(()));
    assert_eq!(m.execute(Op::PopRegister(Register::A)), Ok(()));
    assert_eq!(m.push(2), Ok(()));
    assert_eq!(m.execute(Op::PopRegister(Register::B)), Ok(()));
    assert_eq!(m.execute(Op::AddRegister(Register::A, Register::B)), Ok(()));
    assert_eq!(m.get_register(Register::A), 1);
}

#[test]
fn step_on_unknown_opcode_fails_after_advancing_pc() {
    let mut m: Machine<HaltHandler> = Machine::new();
    let prog = vec![0xABu8, 0x00];
    assert!(m.load_from_vec(&prog, 0));
    assert_eq!(m.step(), Err(VmError::UnknownOpcode(0xAB)));
    assert_eq!(m.get_register(Register::PC), 2);
}

#[test]
fn step_fetch_fault_at_the_end_of_memory() {
    let mut m: Machine<HaltHandler> = Machine::new();
    let last: u16 = (MEM_SIZE - 1) as u16;
    assert_eq!(m.push(last), Ok(()));
    assert_eq!(m.execute(Op::PopRegister(Register::PC)), Ok(()));
    assert_eq!(m.step(), Err(VmError::FetchFault(last)));
    assert_eq!(m.get_register(Register::PC), last);
}

#[test]
fn signal_with_unregistered_code_names_the_code() {
    let mut m: Machine<HaltHandler> = Machine::new();
    let prog = vec![0xF0u8, 0x33];
    assert!(m.load_from_vec(&prog, 0));
    assert_eq!(m.step(), Err(VmError::UnknownSignal(0x33)));
    assert_eq!(m.get_register(Register::PC), 2);
}

#[test]
fn registered_halt_handler_halts_the_run_loop() {
    let mut m: Machine<HaltHandler> = Machine::new();
    m.define_handler(0xF0, HaltHandler);
    let prog = vec![0xF0u8, 0xF0];
    assert!(m.load_from_vec(&prog, 0));
    let mut steps = 0;
    while !m.is_halted() {
        assert_eq!(m.step(), Ok(()));
        steps += 1;
        assert!(steps < 10);
    }
    assert_eq!(steps, 1);
    assert!(m.is_halted());
}

#[test]
fn halt_handler_body_sets_the_flag() {
    let mut core = MachineCore::new();
    assert!(!core.is_halted());
    assert_eq!(signal_halt(&mut core), Ok(()));
    assert!(core.is_halted());
}

#[test]
fn end_to_end_push_push_add_pop() {
    // Push 10; Push 8; AddStack; PopRegister A
    let mut m: Machine<HaltHandler> = Machine::new();
    let prog = vec![0x01u8, 0x0A, 0x01, 0x08, 0x03, 0x00, 0x02, 0x00];
    assert!(m.load_from_vec(&prog, 0));
    for _ in 0..4 {
        assert_eq!(m.step(), Ok(()));
    }
    assert_eq!(m.get_register(Register::A), 18);
    assert_eq!(m.get_register(Register::PC), 8);
    assert_eq!(m.get_register(Register::SP), 0);
}
