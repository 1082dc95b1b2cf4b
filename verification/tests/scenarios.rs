use regvm::machine::{Fault, Outcome, Status};
use regvm::vm::VM;

#[test]
fn load_then_halt() {
    let mut vm = VM::new();
    vm.load(vec![1, 0, 0, 15, 0]);
    let status = vm.run();
    assert_eq!(status, Status::Halted(Outcome::Normal));
    assert_eq!(vm.registers()[0], 15);
    assert_eq!(vm.program_counter(), 5);
}

#[test]
fn load_load_add() {
    let mut vm = VM::new();
    vm.load(vec![1, 0, 0, 2, 1, 1, 0, 15, 2, 0, 1, 2, 0]);
    let status = vm.run();
    assert_eq!(status, Status::Halted(Outcome::Normal));
    assert_eq!(vm.registers()[0], 2);
    assert_eq!(vm.registers()[1], 15);
    assert_eq!(vm.registers()[2], 17);
    assert_eq!(vm.program_counter(), 13);
}

#[test]
fn load_load_divide() {
    let mut vm = VM::new();
    vm.load(vec![1, 0, 0, 2, 1, 1, 0, 5, 4, 0, 1, 2, 0]);
    let status = vm.run();
    assert_eq!(status, Status::Halted(Outcome::Normal));
    assert_eq!(vm.registers()[2], 0);
    assert_eq!(vm.remainder(), 2);
    assert_eq!(vm.program_counter(), 13);
}

#[test]
fn divide_by_zero_faults() {
    let mut vm = VM::new();
    vm.load(vec![1, 0, 0, 5, 1, 1, 0, 0, 4, 0, 1, 2]);
    let status = vm.run();
    assert_eq!(status, Status::Halted(Outcome::Fault(Fault::DivisionByZero)));
    assert_eq!(vm.status(), status);
    assert_eq!(vm.registers()[0], 5);
    assert_eq!(vm.registers()[2], 0);
    assert_eq!(vm.remainder(), 0);
    assert_eq!(vm.program_counter(), 12);
}

#[test]
fn illegal_opcode_faults() {
    let mut vm = VM::new();
    vm.load(vec![200, 0, 0, 0]);
    let status = vm.run();
    assert_eq!(status, Status::Halted(Outcome::Fault(Fault::IllegalOpcode)));
    assert_eq!(vm.program_counter(), 1);
    assert_eq!(vm.registers(), &[0i32; 32]);
    assert_eq!(vm.remainder(), 0);
    assert_eq!(vm.equality_flag(), false);
}

#[test]
fn forward_jump_lands_on_halt() {
    let mut vm = VM::new();
    vm.set_register(0, 2).unwrap();
    vm.load(vec![6, 0, 6, 0, 0, 0, 0, 0]);
    assert_eq!(vm.step(), Status::Running);
    assert_eq!(vm.program_counter(), 4);
    assert_eq!(vm.step(), Status::Halted(Outcome::Normal));
    assert_eq!(vm.program_counter(), 5);
    assert_eq!(vm.registers()[0], 2);
}

#[test]
fn forward_jump_twice() {
    let mut vm = VM::new();
    vm.set_register(0, 2).unwrap();
    vm.load(vec![6, 0, 0, 0, 6, 0, 0, 0, 0, 0]);
    assert_eq!(vm.step(), Status::Running);
    assert_eq!(vm.program_counter(), 4);
    assert_eq!(vm.step(), Status::Running);
    assert_eq!(vm.program_counter(), 8);
    assert_eq!(vm.step(), Status::Halted(Outcome::Normal));
    assert_eq!(vm.program_counter(), 9);
}
