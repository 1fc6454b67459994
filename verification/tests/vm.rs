use iridium::vm::VM;

fn get_test_vm() -> VM {
    return VM::new();
}

#[test]
fn test_create_vm() {
    let test_vm = VM::new();
    assert_eq!(test_vm.registers[0], 0)
}

#[test]
fn test_opcode_hlt() {
    let mut test_vm = VM::new();
    let test_bytes = vec![0, 0, 0, 0];
    test_vm.program = test_bytes;
    test_vm.run();
    assert_eq!(test_vm.pc, 1);
}

#[test]
fn test_opcode_igl() {
    let mut test_vm = VM::new();
    let test_bytes = vec![200, 0, 0, 0];
    test_vm.program = test_bytes;
    test_vm.run();
    assert_eq!(test_vm.pc, 1);
}

#[test]
fn test_opcode_load() {
    let mut test_vm = get_test_vm();
    test_vm.program = vec![1, 0, 1, 244];
    test_vm.run();
    assert_eq!(test_vm.registers[0], 500);
}

#[test]
fn test_opcode_add() {
    let mut test_vm = get_test_vm();
    test_vm.program = vec![1, 0, 0, 10, 1, 1, 0, 20, 2, 0, 1, 2];
    test_vm.run();
    assert_eq!(test_vm.registers[0], 10);
    assert_eq!(test_vm.registers[1], 20);
    assert_eq!(test_vm.registers[2], 30);
}

#[test]
fn test_opcode_sub_pos_result() {
    let mut test_vm = get_test_vm();
    test_vm.program = vec![1, 0, 0, 20, 1, 1, 0, 10, 3, 0, 1, 2];
    test_vm.run();
    assert_eq!(test_vm.registers[0], 20);
    assert_eq!(test_vm.registers[1], 10);
    assert_eq!(test_vm.registers[2], 10);
}

#[test]
fn test_opcode_sub_neg_result() {
    let mut test_vm = get_test_vm();
    test_vm.program = vec![1, 0, 0, 10, 1, 1, 0, 20, 3, 0, 1, 2];
    test_vm.run();
    assert_eq!(test_vm.registers[0], 10);
    assert_eq!(test_vm.registers[1], 20);
    assert_eq!(test_vm.registers[2], -10);
}

#[test]
fn test_opcode_mul() {
    let mut test_vm = get_test_vm();
    test_vm.program = vec![1, 0, 0, 10, 1, 1, 0, 20, 4, 0, 1, 2];
    test_vm.run();
    assert_eq!(test_vm.registers[0], 10);
    assert_eq!(test_vm.registers[1], 20);
    assert_eq!(test_vm.registers[2], 200);
}

#[test]
fn test_opcode_div_no_remainder() {
    let mut test_vm = get_test_vm();
    test_vm.program = vec![1, 0, 0, 20, 1, 1, 0, 10, 5, 0, 1, 2];
    test_vm.run();
    assert_eq!(test_vm.registers[0], 20);
    assert_eq!(test_vm.registers[1], 10);
    assert_eq!(test_vm.registers[2], 2);
    assert_eq!(test_vm.remainder, 0);
}

#[test]
fn test_opcode_div_with_remainder() {
    let mut test_vm = get_test_vm();
    test_vm.program = vec![1, 0, 0, 10, 1, 1, 0, 3, 5, 0, 1, 2];
    test_vm.run();
    assert_eq!(test_vm.registers[0], 10);
    assert_eq!(test_vm.registers[1], 3);
    assert_eq!(test_vm.registers[2], 3);
    assert_eq!(test_vm.remainder, 1);
}

#[test]
fn test_jmp() {
    let mut test_vm = get_test_vm();
    test_vm.registers[0] = 1;
    test_vm.program = vec![6, 0, 0, 0];
    test_vm.run_once();
    assert_eq!(test_vm.pc, 1);
}

#[test]
fn test_jmpf() {
    let mut test_vm = get_test_vm();
    test_vm.registers[0] = 2;
    test_vm.program = vec![7, 0, 0, 0];
    test_vm.run_once();
    assert_eq!(test_vm.pc, 4);
}

#[test]
fn test_jmpb() {
    let mut test_vm = get_test_vm();
    test_vm.registers[0] = 1;
    test_vm.program = vec![8, 0, 0, 0];
    test_vm.run_once();
    assert_eq!(test_vm.pc, 1);
}

#[test]
fn test_eq() {
    let mut test_vm = get_test_vm();
    test_vm.registers[0] = 10;
    test_vm.registers[1] = 10;
    test_vm.program = vec![9, 0, 1, 0, 9, 0, 1, 0];
    test_vm.run_once();
    assert_eq!(test_vm.equal_flag, true);
    test_vm.registers[1] = 20;
    test_vm.run_once();
    assert_eq!(test_vm.equal_flag, false);
}

#[test]
fn test_neq() {
    let mut test_vm = get_test_vm();
    test_vm.registers[0] = 10;
    test_vm.registers[1] = 10;
    test_vm.program = vec![10, 0, 1, 0, 10, 0, 1, 0];
    test_vm.run_once();
    assert_eq!(test_vm.equal_flag, false);
    test_vm.registers[1] = 20;
    test_vm.run_once();
    assert_eq!(test_vm.equal_flag, true);
}

#[test]
fn test_gt() {
    let mut test_vm = get_test_vm();
    test_vm.registers[0] = 10;
    test_vm.registers[1] = 20;
    test_vm.program = vec![11, 0, 1, 0, 11, 0, 1, 0, 11, 0, 1, 0];
    test_vm.run_once();
    assert_eq!(test_vm.equal_flag, false);
    test_vm.registers[1] = 0;
    test_vm.run_once();
    assert_eq!(test_vm.equal_flag, true);
    test_vm.registers[1] = 10;
    test_vm.run_once();
    assert_eq!(test_vm.equal_flag, false);
}

#[test]
fn test_lt() {
    let mut test_vm = get_test_vm();
    test_vm.registers[0] = 10;
    test_vm.registers[1] = 0;
    test_vm.program = vec![12, 0, 1, 0, 12, 0, 1, 0, 12, 0, 1, 0];
    test_vm.run_once();
    assert_eq!(test_vm.equal_flag, false);
    test_vm.registers[1] = 20;
    test_vm.run_once();
    assert_eq!(test_vm.equal_flag, true);
    test_vm.registers[1] = 10;
    test_vm.run_once();
    assert_eq!(test_vm.equal_flag, false);
}

#[test]
fn test_gtq() {
    let mut test_vm = get_test_vm();
    test_vm.registers[0] = 10;
    test_vm.registers[1] = 0;
    test_vm.program = vec![13, 0, 1, 0, 13, 0, 1, 0, 13, 0, 1, 0];
    test_vm.run_once();
    assert_eq!(test_vm.equal_flag, true);
    test_vm.registers[1] = 20;
    test_vm.run_once();
    assert_eq!(test_vm.equal_flag, false);
    test_vm.registers[1] = 10;
    test_vm.run_once();
    assert_eq!(test_vm.equal_flag, true);
}

#[test]
fn test_ltq() {
    let mut test_vm = get_test_vm();
    test_vm.registers[0] = 10;
    test_vm.registers[1] = 20;
    test_vm.program = vec![14, 0, 1, 0, 14, 0, 1, 0, 14, 0, 1, 0];
    test_vm.run_once();
    assert_eq!(test_vm.equal_flag, true);
    test_vm.registers[1] = 0;
    test_vm.run_once();
    assert_eq!(test_vm.equal_flag, false);
    test_vm.registers[1] = 10;
    test_vm.run_once();
    assert_eq!(test_vm.equal_flag, true);
}

#[test]
fn test_jeq_opcode() {
    let mut test_vm = get_test_vm();
    test_vm.registers[0] = 7;
    test_vm.equal_flag = true;
    test_vm.program = vec![14, 0, 0, 0, 15, 0, 0, 0, 15, 0, 0, 0];
    test_vm.run_once();
    test_vm.run_once();
    assert_eq!(test_vm.pc, 7);
}
