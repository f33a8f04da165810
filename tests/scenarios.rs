use synacor_challenge::machine::{Status, VirtualMachine, VmError};

fn load(prog: &[u16]) -> VirtualMachine {
    VirtualMachine::new(prog).unwrap()
}

#[test]
fn halt_only_program_halts_without_change() {
    let mut vm = load(&[0]);
    assert_eq!(vm.run(), Ok(Status::Halted));
    assert_eq!(vm.ip(), 0);
    assert!(vm.take_output().is_empty());
    assert!(vm.stack().is_empty());
    for i in 0..8 {
        assert_eq!(vm.register(i), 0);
    }
    assert_eq!(vm.read_mem(0), 0);
}

#[test]
fn add_into_register_then_halt() {
    let mut vm = load(&[9, 32768, 4, 6, 0]);
    assert_eq!(vm.run(), Ok(Status::Halted));
    assert_eq!(vm.register(0), 10);
    assert_eq!(vm.ip(), 4);
}

#[test]
fn out_literal_emits_character() {
    let mut vm = load(&[19, 65, 0]);
    assert_eq!(vm.run(), Ok(Status::Halted));
    assert_eq!(vm.take_output(), b"A".to_vec());
}

#[test]
fn in_suspends_then_resumes_with_input() {
    let mut vm = load(&[20, 32768, 0]);
    assert_eq!(vm.run(), Ok(Status::PendingInput));
    assert_eq!(vm.ip(), 0);
    vm.enqueue_input(65);
    assert_eq!(vm.run(), Ok(Status::Halted));
    assert_eq!(vm.register(0), 65);
    assert!(vm.input.is_empty());
}

#[test]
fn ret_on_empty_stack_halts() {
    let mut vm = load(&[18]);
    assert_eq!(vm.run(), Ok(Status::Halted));
}

#[test]
fn pop_on_empty_stack_is_underflow() {
    let mut vm = load(&[3, 0]);
    assert_eq!(vm.run(), Err(VmError::StackUnderflow));
    assert_eq!(vm.ip(), 0);
}
