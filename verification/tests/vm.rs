use regvm::vm::VM;

#[test]
fn test_create_vm() {
    let test_vm = VM::new();
    assert_eq!(test_vm.registers()[0], 0)
}

#[test]
fn test_opcode_hlt() {
    let mut test_vm = VM::new();
    let test_bytes = vec![0, 0, 0, 0];
    test_vm.load(test_bytes);
    test_vm.run();
    assert_eq!(test_vm.program_counter(), 1);
}

#[test]
fn test_opcode_igl() {
    let mut test_vm = VM::new();
    let test_bytes = vec![200, 0, 0, 0];
    test_vm.load(test_bytes);
    test_vm.run();
    assert_eq!(test_vm.program_counter(), 1);
}

#[test]
fn test_opcode_load() {
    let val = 0xF as u8;
    let mut test_vm = VM::new();
    let test_bytes = vec![0x01, 0x1, 0x0, val, 0x0];
    test_vm.load(test_bytes);
    test_vm.run();
    assert_eq!(test_vm.registers()[0x1] as u8, val);
}

#[test]
fn test_opcode_add() {
    for val2 in 0..0xFF {
        let val1 = 0x02 as u8;
        let mut test_vm = VM::new();
        let test_bytes = vec![
            0x01, 0x0, 0x0, val1, 0x01, 0x1, 0x0, val2, 0x02, 0x0, 0x01, 0x2, 0x0,
        ];
        test_vm.load(test_bytes);
        test_vm.run();
        println!("{:?}", test_vm.registers());
        println!("{:?}", test_vm.program());
        assert_eq!(test_vm.registers()[0x02] as u32, val1 as u32 + val2 as u32);
    }
}

#[test]
fn test_opcode_mul() {
    for val2 in 0..0xFF {
        let val1 = 0x02 as u8;
        let mut test_vm = VM::new();
        let test_bytes = vec![
            0x01, 0x0, 0x0, val1, 0x01, 0x1, 0x0, val2, 0x03, 0x0, 0x01, 0x2, 0x0,
        ];
        test_vm.load(test_bytes);
        test_vm.run();
        println!("{:?}", test_vm.registers());
        println!("{:?}", test_vm.program());
        assert_eq!(test_vm.registers()[0x02] as u32, val1 as u32 * val2 as u32);
    }
}

#[test]
fn test_opcode_div() {
    for val2 in 1..0xFF {
        let val1 = 0x02 as u8;
        let mut test_vm = VM::new();
        let test_bytes = vec![
            0x01, 0x0, 0x0, val1, 0x01, 0x1, 0x0, val2, 0x04, 0x0, 0x01, 0x2, 0x0,
        ];
        test_vm.load(test_bytes);
        test_vm.run();
        println!("{:?}", test_vm.registers());
        println!("{:?}", test_vm.program());
        assert_eq!(test_vm.registers()[0x02] as u32, val1 as u32 / val2 as u32);
        assert_eq!(test_vm.remainder(), val1 as u32 % val2 as u32);
    }
}

#[test]
fn test_jmp_opcode() {
    let mut test_vm = VM::new();
    test_vm.set_register(0, 3).unwrap();
    test_vm.load(vec![5, 0, 0, 0]);
    test_vm.run();
    assert_eq!(test_vm.program_counter(), 4);
}

#[test]
fn test_jmpf_opcode() {
    let mut test_vm = VM::new();
    test_vm.set_register(0, 2).unwrap();
    test_vm.load(vec![6, 0, 0, 0, 6, 0, 0, 0, 0, 0]);
    test_vm.run();
    assert_eq!(test_vm.program_counter(), 9);
}

#[test]
fn test_eq_opcode() {
    let mut test_vm = VM::new();
    test_vm.set_register(0, 1).unwrap();
    test_vm.set_register(1, 1).unwrap();
    test_vm.set_register(2, 0xFF).unwrap();
    test_vm.load(vec![8, 0, 1]);
    test_vm.run();
    assert_eq!(test_vm.equality_flag(), true);
    test_vm.reset();
    test_vm.load(vec![8, 0, 2]);
    assert_eq!(test_vm.equality_flag(), false);
}

#[test]
fn test_jeq_opcode() {
    let mut test_vm = VM::new();
    test_vm.set_register(0, 4).unwrap();
    test_vm.load(vec![9, 0, 0, 0, 0]);
    test_vm.set_equality_flag(true);
    test_vm.run();
    assert_eq!(test_vm.program_counter(), 5);
}

#[test]
fn test_jne_opcode() {
    let mut test_vm = VM::new();
    test_vm.set_register(0, 4).unwrap();
    test_vm.load(vec![10, 0, 0, 0, 0]);
    test_vm.set_equality_flag(false);
    test_vm.run();
    assert_eq!(test_vm.program_counter(), 5);
}

#[test]
fn test_nop_opcode() {
    let mut test_vm = VM::new();
    test_vm.load(vec![11, 11, 11, 11, 11, 0]);
    test_vm.run();
    assert_eq!(test_vm.program_counter(), 6);
}
