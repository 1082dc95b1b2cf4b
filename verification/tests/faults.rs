use regvm::machine::{Fault, Outcome, Status};
use regvm::vm::VM;

fn run_program(program: Vec<u8>) -> (VM, Status) {
    let mut vm = VM::new();
    vm.load(program);
    let status = vm.run();
    (vm, status)
}

fn faulted(fault: Fault) -> Status {
    Status::Halted(Outcome::Fault(fault))
}

#[test]
fn every_unassigned_byte_is_illegal() {
    for byte in 12..=255u8 {
        let mut vm = VM::new();
        vm.set_register(3, 33).unwrap();
        vm.load(vec![byte, 3, 3, 3]);
        assert_eq!(vm.run(), faulted(Fault::IllegalOpcode));
        assert_eq!(vm.program_counter(), 1);
        let mut expected = [0i32; 32];
        expected[3] = 33;
        assert_eq!(vm.registers(), &expected);
    }
}

#[test]
fn load_without_register_byte_is_truncated() {
    let (vm, status) = run_program(vec![1]);
    assert_eq!(status, faulted(Fault::TruncatedProgram));
    assert_eq!(vm.program_counter(), 1);
}

#[test]
fn load_without_immediate_is_truncated() {
    let (vm, status) = run_program(vec![1, 0]);
    assert_eq!(status, faulted(Fault::TruncatedProgram));
    assert_eq!(vm.program_counter(), 2);
    let (vm, status) = run_program(vec![1, 0, 9]);
    assert_eq!(status, faulted(Fault::TruncatedProgram));
    assert_eq!(vm.program_counter(), 2);
    assert_eq!(vm.registers()[0], 0);
}

#[test]
fn load_into_missing_register_faults() {
    let (vm, status) = run_program(vec![1, 32, 0, 9, 0]);
    assert_eq!(status, faulted(Fault::InvalidRegisterIndex));
    assert_eq!(vm.program_counter(), 4);
    assert_eq!(vm.registers(), &[0i32; 32]);
}

#[test]
fn load_into_last_register_works() {
    let (vm, status) = run_program(vec![1, 31, 0, 9, 0]);
    assert_eq!(status, Status::Halted(Outcome::Normal));
    assert_eq!(vm.registers()[31], 9);
}

#[test]
fn three_operand_instructions_truncated() {
    for opcode in [2u8, 3, 4] {
        let (vm, status) = run_program(vec![opcode]);
        assert_eq!(status, faulted(Fault::TruncatedProgram));
        assert_eq!(vm.program_counter(), 1);
        let (vm, status) = run_program(vec![opcode, 0]);
        assert_eq!(status, faulted(Fault::TruncatedProgram));
        assert_eq!(vm.program_counter(), 2);
        let (vm, status) = run_program(vec![opcode, 0, 1]);
        assert_eq!(status, faulted(Fault::TruncatedProgram));
        assert_eq!(vm.program_counter(), 3);
    }
}

#[test]
fn three_operand_instructions_check_each_register() {
    for opcode in [2u8, 3, 4] {
        let (vm, status) = run_program(vec![opcode, 32, 1, 2]);
        assert_eq!(status, faulted(Fault::InvalidRegisterIndex));
        assert_eq!(vm.program_counter(), 2);
        let (vm, status) = run_program(vec![opcode, 0, 255, 2]);
        assert_eq!(status, faulted(Fault::InvalidRegisterIndex));
        assert_eq!(vm.program_counter(), 3);
        let (vm, status) = run_program(vec![opcode, 0, 1, 40]);
        assert_eq!(status, faulted(Fault::InvalidRegisterIndex));
        assert_eq!(vm.program_counter(), 4);
        assert_eq!(vm.registers(), &[0i32; 32]);
    }
}

#[test]
fn divide_checks_registers_before_the_divisor() {
    let (vm, status) = run_program(vec![4, 0, 1, 32]);
    assert_eq!(status, faulted(Fault::InvalidRegisterIndex));
    assert_eq!(vm.program_counter(), 4);
    let (vm, status) = run_program(vec![4, 0, 1]);
    assert_eq!(status, faulted(Fault::TruncatedProgram));
    assert_eq!(vm.program_counter(), 3);
}

#[test]
fn one_operand_instructions_truncated() {
    for opcode in [5u8, 6, 7, 9, 10] {
        let (vm, status) = run_program(vec![opcode]);
        assert_eq!(status, faulted(Fault::TruncatedProgram));
        assert_eq!(vm.program_counter(), 1);
    }
}

#[test]
fn one_operand_instructions_check_the_register() {
    for opcode in [5u8, 6, 7, 9, 10] {
        let (vm, status) = run_program(vec![opcode, 32, 0]);
        assert_eq!(status, faulted(Fault::InvalidRegisterIndex));
        assert_eq!(vm.program_counter(), 2);
    }
}

#[test]
fn compare_truncated_or_with_missing_register() {
    let (vm, status) = run_program(vec![8]);
    assert_eq!(status, faulted(Fault::TruncatedProgram));
    assert_eq!(vm.program_counter(), 1);
    let (vm, status) = run_program(vec![8, 0]);
    assert_eq!(status, faulted(Fault::TruncatedProgram));
    assert_eq!(vm.program_counter(), 2);
    let (vm, status) = run_program(vec![8, 100, 0]);
    assert_eq!(status, faulted(Fault::InvalidRegisterIndex));
    assert_eq!(vm.program_counter(), 2);
    let (vm, status) = run_program(vec![8, 0, 100]);
    assert_eq!(status, faulted(Fault::InvalidRegisterIndex));
    assert_eq!(vm.program_counter(), 3);
    assert_eq!(vm.equality_flag(), false);
}

#[test]
fn fault_keeps_earlier_effects() {
    let (vm, status) = run_program(vec![1, 0, 0, 9, 1, 1, 0, 3, 2, 0, 1, 2, 4, 2, 5, 6]);
    assert_eq!(status, faulted(Fault::DivisionByZero));
    assert_eq!(vm.registers()[0], 9);
    assert_eq!(vm.registers()[1], 3);
    assert_eq!(vm.registers()[2], 12);
    assert_eq!(vm.registers()[6], 0);
    assert_eq!(vm.program_counter(), 16);
}
