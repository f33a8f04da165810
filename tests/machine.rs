use synacor_challenge::loader::FormatError;
use synacor_challenge::machine::{Status, VirtualMachine, VmError};

fn load(prog: &[u16]) -> VirtualMachine {
    VirtualMachine::new(prog).unwrap()
}

#[test]
fn halt_later_in_program_stops_there() {
    // noop, out 66, halt, out 67
    let mut vm = load(&[21, 19, 66, 0, 19, 67]);
    assert_eq!(vm.run(), Ok(Status::Halted));
    assert_eq!(vm.ip(), 3);
    assert_eq!(vm.take_output(), vec![66u8]);
    assert_eq!(vm.run(), Ok(Status::Halted));
    assert_eq!(vm.ip(), 3);
    assert!(vm.take_output().is_empty());
}

#[test]
fn add_wraps_modulo_32768() {
    let mut vm = load(&[9, 32768, 32758, 15, 0]);
    assert_eq!(vm.run(), Ok(Status::Halted));
    assert_eq!(vm.register(0), 5);
}

#[test]
fn add_of_large_register_values_stays_in_range() {
    // in r0, in r1, add r2 r0 r1, halt
    let mut vm = load(&[20, 32768, 20, 32769, 9, 32770, 32768, 32769, 0]);
    vm.enqueue_input(65535);
    vm.enqueue_input(65535);
    assert_eq!(vm.run(), Ok(Status::Halted));
    assert_eq!(vm.register(2), 32766);
}

#[test]
fn mult_uses_wide_intermediate() {
    let mut vm = load(&[10, 32768, 32767, 32767, 0]);
    assert_eq!(vm.run(), Ok(Status::Halted));
    assert_eq!(vm.register(0), 1);
}

#[test]
fn mod_divides() {
    let mut vm = load(&[11, 32768, 17, 5, 0]);
    assert_eq!(vm.run(), Ok(Status::Halted));
    assert_eq!(vm.register(0), 2);
}

#[test]
fn mod_by_zero_faults() {
    let mut vm = load(&[11, 32768, 17, 0, 0]);
    assert_eq!(vm.run(), Err(VmError::DivisionByZero));
    assert_eq!(vm.register(0), 0);
}

#[test]
fn eq_and_gt() {
    let mut vm = load(&[4, 32768, 3, 3, 5, 32769, 3, 4, 5, 32770, 4, 3, 0]);
    assert_eq!(vm.run(), Ok(Status::Halted));
    assert_eq!(vm.register(0), 1);
    assert_eq!(vm.register(1), 0);
    assert_eq!(vm.register(2), 1);
}

#[test]
fn bitwise_and_or_not() {
    let mut vm = load(&[12, 32768, 12, 10, 13, 32769, 12, 10, 14, 32770, 0, 0]);
    assert_eq!(vm.run(), Ok(Status::Halted));
    assert_eq!(vm.register(0), 8);
    assert_eq!(vm.register(1), 14);
    assert_eq!(vm.register(2), 32767);
}

#[test]
fn set_reads_register_operand() {
    // set r1 7, set r0 r1, halt
    let mut vm = load(&[1, 32769, 7, 1, 32768, 32769, 0]);
    assert_eq!(vm.run(), Ok(Status::Halted));
    assert_eq!(vm.register(0), 7);
}

#[test]
fn push_pop_moves_values() {
    // push 5, push 9, pop r0, pop r1, halt
    let mut vm = load(&[2, 5, 2, 9, 3, 32768, 3, 32769, 0]);
    assert_eq!(vm.run(), Ok(Status::Halted));
    assert_eq!(vm.register(0), 9);
    assert_eq!(vm.register(1), 5);
    assert!(vm.stack().is_empty());
}

#[test]
fn jumps_follow_condition() {
    // jmp 3; halt; jt 1 7; halt; jf 0 10; out 0 ... ; at 10: out 88, halt
    let mut vm = load(&[6, 3, 0, 7, 1, 7, 0, 8, 0, 12, 0, 0, 19, 88, 0]);
    assert_eq!(vm.run(), Ok(Status::Halted));
    assert_eq!(vm.take_output(), vec![88u8]);
    assert_eq!(vm.ip(), 14);
}

#[test]
fn jt_on_zero_and_jf_on_nonzero_fall_through() {
    let mut vm = load(&[7, 0, 9, 8, 1, 9, 19, 89, 0, 0]);
    assert_eq!(vm.run(), Ok(Status::Halted));
    assert_eq!(vm.take_output(), vec![89u8]);
}

#[test]
fn rmem_and_wmem() {
    // wmem 100 42, rmem r0 100, halt
    let mut vm = load(&[16, 100, 42, 15, 32768, 100, 0]);
    assert_eq!(vm.run(), Ok(Status::Halted));
    assert_eq!(vm.read_mem(100), 42);
    assert_eq!(vm.register(0), 42);
}

#[test]
fn call_and_ret() {
    // call 4, halt, noop, ret-target: at 4 out 67, ret
    let mut vm = load(&[17, 4, 0, 0, 19, 67, 18]);
    assert_eq!(vm.run(), Ok(Status::Halted));
    assert_eq!(vm.take_output(), vec![67u8]);
    assert_eq!(vm.ip(), 2);
}

#[test]
fn out_truncates_to_low_byte() {
    let mut vm = load(&[19, 321, 0]);
    assert_eq!(vm.run(), Ok(Status::Halted));
    assert_eq!(vm.take_output(), vec![65u8]);
}

#[test]
fn in_reads_queue_in_order() {
    let mut vm = load(&[20, 32768, 20, 32769, 0]);
    vm.input.push_back(104);
    vm.input.push_back(105);
    assert_eq!(vm.run(), Ok(Status::Halted));
    assert_eq!(vm.register(0), 104);
    assert_eq!(vm.register(1), 105);
}

#[test]
fn suspended_run_suspends_again_without_input() {
    let mut vm = load(&[21, 20, 32768, 0]);
    assert_eq!(vm.run(), Ok(Status::PendingInput));
    assert_eq!(vm.ip(), 1);
    assert_eq!(vm.run(), Ok(Status::PendingInput));
    assert_eq!(vm.ip(), 1);
    assert_eq!(vm.register(0), 0);
}

#[test]
fn resume_consumes_exactly_one_word() {
    let mut vm = load(&[20, 32768, 20, 32769, 0]);
    assert_eq!(vm.run(), Ok(Status::PendingInput));
    vm.enqueue_input(7);
    assert_eq!(vm.run(), Ok(Status::PendingInput));
    assert_eq!(vm.ip(), 2);
    assert_eq!(vm.register(0), 7);
    assert!(vm.input.is_empty());
}

#[test]
fn register_write_then_read() {
    let mut vm = load(&[32771, 0]);
    assert_eq!(vm.set_value(32771, 1234), Ok(()));
    assert_eq!(vm.get_value(0), Ok(1234));
}

#[test]
fn memory_write_then_read() {
    let mut vm = load(&[]);
    assert_eq!(vm.set_value(500, 321), Ok(()));
    assert_eq!(vm.get_value(500), Ok(321));
    assert_eq!(vm.read_mem(500), 321);
}

#[test]
fn invalid_destination_is_rejected() {
    let mut vm = load(&[]);
    assert_eq!(vm.set_value(32776, 1), Err(VmError::InvalidOperand));
}

#[test]
fn register_index_of_reference() {
    assert_eq!(VirtualMachine::get_reg(32768), Ok(0));
    assert_eq!(VirtualMachine::get_reg(32775), Ok(7));
    assert_eq!(VirtualMachine::get_reg(32776), Err(VmError::InvalidOperand));
    assert_eq!(VirtualMachine::get_reg(5), Err(VmError::InvalidOperand));
}

#[test]
fn invalid_opcode_faults() {
    let mut vm = load(&[22]);
    assert_eq!(vm.run(), Err(VmError::InvalidOpcode));
}

#[test]
fn invalid_operand_faults() {
    let mut vm = load(&[19, 32776]);
    assert_eq!(vm.run(), Err(VmError::InvalidOperand));
}

#[test]
fn invalid_address_faults() {
    // jmp to r0's content after setting it beyond memory
    let mut vm = load(&[20, 32768, 6, 32768]);
    vm.enqueue_input(40000);
    assert_eq!(vm.run(), Err(VmError::InvalidAddress));
    assert_eq!(vm.ip(), 40000);
}

#[test]
fn run_for_stops_after_budget() {
    let mut vm = load(&[6, 0]);
    assert_eq!(vm.run_for(10), Ok(Status::Running));
    assert_eq!(vm.ip(), 0);
}

#[test]
fn exec_op_runs_one_instruction() {
    let mut vm = load(&[21, 21, 0]);
    assert_eq!(vm.exec_op(), Ok(Status::Running));
    assert_eq!(vm.ip(), 1);
}

#[test]
fn program_filling_memory_loads() {
    let prog = vec![21u16; 32768];
    let vm = load(&prog);
    assert_eq!(vm.read_mem(32767), 21);
}

#[test]
fn program_too_large_is_rejected() {
    let prog = vec![0u16; 32769];
    assert!(matches!(VirtualMachine::new(&prog), Err(FormatError::TooLarge)));
}
