use chip8::status::{Fault, Status};
use chip8::vm::{INITIAL_PC, STACK_SIZE, VM};

#[test]
fn fault_of_is_none_for_instructions_that_run() {
    let vm = VM::new();
    for word in [
        0x00e0u16, 0x0123, 0x1234, 0x2345, 0x3456, 0x4567, 0x5670, 0x6789, 0x789a, 0x8120, 0x8121,
        0x8122, 0x8123, 0x8124, 0x8125, 0x8126, 0x8127, 0x812e, 0x9120, 0xa123, 0xb123, 0xc123,
        0xd123, 0xe19e, 0xe1a1, 0xf107, 0xf10a, 0xf115, 0xf118, 0xf11e, 0xf129, 0xf133, 0xf155,
        0xf165,
    ] {
        assert_eq!(vm.fault_of(word), None);
    }
}

#[test]
fn fault_of_names_decode_faults() {
    let vm = VM::new();
    for word in [
        0x8128u16, 0x8129, 0x812a, 0x812b, 0x812c, 0x812d, 0x812f, 0xe000, 0xe19f, 0xe00e, 0xf000,
        0xf017, 0xf1ff, 0xf105, 0xf10b,
    ] {
        assert_eq!(vm.fault_of(word), Some(Fault::Decode));
    }
}

#[test]
fn fault_of_names_stack_faults() {
    let mut vm = VM::new();
    assert_eq!(vm.fault_of(0x00ee), Some(Fault::StackUnderflow));
    assert_eq!(vm.fault_of(0x2300), None);
    vm.regs.sp = 15;
    assert_eq!(vm.fault_of(0x00ee), None);
    vm.regs.sp = 1;
    assert_eq!(vm.fault_of(0x2300), None);
    vm.regs.sp = 0;
    assert_eq!(vm.fault_of(0x2300), Some(Fault::StackOverflow));
    assert_eq!(vm.fault_of(0x00ee), None);
}

#[test]
fn fault_of_names_address_faults() {
    let mut vm = VM::new();
    vm.regs.v[0] = 0xff;
    assert_eq!(vm.fault_of(0xbf00), None);
    assert_eq!(vm.fault_of(0xbf01), Some(Fault::AddressOutOfRange));

    vm.regs.i = 0xfff;
    assert_eq!(vm.fault_of(0xd010), None);
    assert_eq!(vm.fault_of(0xd011), None);
    assert_eq!(vm.fault_of(0xd012), Some(Fault::AddressOutOfRange));
    assert_eq!(vm.fault_of(0xf055), None);
    assert_eq!(vm.fault_of(0xf155), Some(Fault::AddressOutOfRange));
    assert_eq!(vm.fault_of(0xf065), None);
    assert_eq!(vm.fault_of(0xf165), Some(Fault::AddressOutOfRange));
    assert_eq!(vm.fault_of(0xf033), Some(Fault::AddressOutOfRange));
    assert_eq!(vm.fault_of(0xf01e), None);

    vm.regs.i = 0xffd;
    assert_eq!(vm.fault_of(0xf033), None);
    vm.regs.i = 0xffe;
    assert_eq!(vm.fault_of(0xf033), Some(Fault::AddressOutOfRange));

    vm.regs.i = 0xffff;
    assert_eq!(vm.fault_of(0xd010), None);
    assert_eq!(vm.fault_of(0xd01f), Some(Fault::AddressOutOfRange));
    assert_eq!(vm.fault_of(0xf055), Some(Fault::AddressOutOfRange));
}

#[test]
fn fault_of_changes_nothing_and_agrees_with_process_opcode() {
    for word in [0x8128u16, 0x00ee, 0xe000, 0xf0ff, 0x6123, 0x2300, 0xf10a] {
        let mut vm = VM::new();
        let predicted = vm.fault_of(word);
        assert_eq!(vm.regs.pc, INITIAL_PC);
        assert_eq!(vm.status, Status::Running);
        vm.process_opcode(word);
        assert_eq!(vm.fault(), predicted);
    }
}

#[test]
fn add_rule_called_directly() {
    let mut vm = VM::new();
    vm.regs.v[1] = 200;
    vm.regs.v[2] = 100;
    vm.process_opcode_8xy4(1, 2);
    assert_eq!(vm.regs.v[1], 44);
    assert_eq!(vm.regs.v[0xf], 1);
    assert_eq!(vm.regs.pc, INITIAL_PC + 2);
}

#[test]
fn sub_rule_called_directly() {
    let mut vm = VM::new();
    vm.regs.v[1] = 5;
    vm.regs.v[2] = 10;
    vm.process_opcode_8xy5(1, 2);
    assert_eq!(vm.regs.v[1], 251);
    assert_eq!(vm.regs.v[0xf], 0);

    vm.regs.v[1] = 5;
    vm.process_opcode_8xy7(1, 2);
    assert_eq!(vm.regs.v[1], 5);
    assert_eq!(vm.regs.v[0xf], 1);
}

#[test]
fn shift_rules_called_directly() {
    let mut vm = VM::new();
    vm.regs.v[3] = 0x89;
    vm.process_opcode_8xye(3, 0);
    assert_eq!(vm.regs.v[3], 0x12);
    assert_eq!(vm.regs.v[0xf], 1);

    vm.regs.v[3] = 9;
    vm.process_opcode_8xy6(3, 0);
    assert_eq!(vm.regs.v[3], 4);
    assert_eq!(vm.regs.v[0xf], 1);
}

#[test]
fn store_and_load_rules_called_directly() {
    let mut vm = VM::new();
    vm.regs.v[0] = 7;
    vm.regs.v[1] = 8;
    vm.regs.v[2] = 9;
    vm.regs.i = 0x300;
    vm.process_opcode_fx55(1);
    assert_eq!(vm.memory[0x300], 7);
    assert_eq!(vm.memory[0x301], 8);
    assert_eq!(vm.memory[0x302], 0);

    vm.regs.v[0] = 0;
    vm.regs.v[1] = 0;
    vm.process_opcode_fx65(1);
    assert_eq!(vm.regs.v[0], 7);
    assert_eq!(vm.regs.v[1], 8);
    assert_eq!(vm.regs.v[2], 9);
    assert_eq!(vm.regs.i, 0x300);
}

#[test]
fn call_and_ret_rules_called_directly() {
    let mut vm = VM::new();
    vm.process_opcode_2nnn(0x2345);
    assert_eq!(vm.regs.pc, 0x345);
    assert_eq!(vm.regs.sp, 15);
    assert_eq!(vm.stack[15], INITIAL_PC + 2);
    vm.process_opcode_00ee();
    assert_eq!(vm.regs.pc, INITIAL_PC + 2);
    assert_eq!(vm.regs.sp, STACK_SIZE as u16);
    assert_eq!(vm.stack[15], 0);
}

#[test]
fn family_dispatchers_called_directly() {
    let mut vm = VM::new();
    vm.regs.v[1] = 3;
    vm.regs.v[2] = 4;
    vm.process_opcode_8(0x8124);
    assert_eq!(vm.regs.v[1], 7);

    vm.process_opcode_e(0xe1a1);
    assert_eq!(vm.regs.pc, INITIAL_PC + 6);

    vm.process_opcode_f(0xf215);
    assert_eq!(vm.regs.delay_timer, 4);

    vm.process_opcode_0(0x00e0);
    assert_eq!(vm.regs.pc, INITIAL_PC + 10);
    assert_eq!(vm.status, Status::Running);
}
