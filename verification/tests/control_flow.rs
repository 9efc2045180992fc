use chip8::status::{Fault, Status};
use chip8::vm::{INITIAL_PC, STACK_SIZE, VM};

#[test]
fn jump_sets_pc_without_advancing() {
    let mut vm = VM::new();
    vm.write_u16(0x200, 0x1123);
    vm.step();
    assert_eq!(vm.regs.pc, 0x123);
    assert_eq!(vm.status, Status::Running);
}

#[test]
fn jump_with_offset_adds_v0() {
    let mut vm = VM::new();
    vm.regs.v[0] = 1;
    vm.write_u16(0x200, 0xb012);
    vm.step();
    assert_eq!(vm.regs.pc, 0x13);
    assert_eq!(vm.regs.v[0], 1);
}

#[test]
fn jump_with_offset_reaches_last_byte_of_memory() {
    let mut vm = VM::new();
    vm.regs.v[0] = 0xff;
    vm.process_opcode(0xbf00);
    assert_eq!(vm.regs.pc, 0xfff);
    assert_eq!(vm.status, Status::Running);
}

#[test]
fn jump_with_offset_outside_memory_halts() {
    let mut vm = VM::new();
    vm.regs.v[0] = 0xff;
    vm.process_opcode(0xbf01);
    assert_eq!(vm.status, Status::Halted(Fault::AddressOutOfRange));
    assert_eq!(vm.regs.pc, INITIAL_PC);
}

#[test]
fn call_then_ret_restores_pc_and_sp_and_clears_slot() {
    let mut vm = VM::new();
    vm.write_u16(0x200, 0x2300);
    vm.write_u16(0x300, 0x00ee);

    vm.step();
    assert_eq!(vm.regs.pc, 0x300);
    assert_eq!(vm.regs.sp, 15);
    assert_eq!(vm.stack[15], 0x202);

    vm.step();
    assert_eq!(vm.regs.pc, 0x202);
    assert_eq!(vm.regs.sp, STACK_SIZE as u16);
    assert_eq!(vm.stack, [0; STACK_SIZE]);
}

#[test]
fn nested_calls_return_innermost_first() {
    let mut vm = VM::new();
    vm.process_opcode(0x2300);
    vm.process_opcode(0x2400);
    assert_eq!(vm.regs.sp, 14);
    assert_eq!(vm.stack[15], 0x202);
    assert_eq!(vm.stack[14], 0x302);

    vm.process_opcode(0x00ee);
    assert_eq!(vm.regs.pc, 0x302);
    assert_eq!(vm.regs.sp, 15);
    assert_eq!(vm.stack[14], 0);
    assert_eq!(vm.stack[15], 0x202);

    vm.process_opcode(0x00ee);
    assert_eq!(vm.regs.pc, 0x202);
    assert_eq!(vm.regs.sp, 16);
    assert_eq!(vm.stack[15], 0);
}

#[test]
fn sixteen_calls_fit_and_the_next_overflows() {
    let mut vm = VM::new();
    for _ in 0..16 {
        vm.process_opcode(0x2300);
        assert_eq!(vm.status, Status::Running);
    }
    assert_eq!(vm.regs.sp, 0);
    assert_eq!(vm.stack[0], 0x302);

    let stack = vm.stack;
    vm.process_opcode(0x2400);
    assert_eq!(vm.status, Status::Halted(Fault::StackOverflow));
    assert_eq!(vm.regs.pc, 0x300);
    assert_eq!(vm.regs.sp, 0);
    assert_eq!(vm.stack, stack);
}

#[test]
fn ret_on_empty_stack_underflows() {
    let mut vm = VM::new();
    vm.write_u16(0x200, 0x00ee);
    vm.step();
    assert_eq!(vm.status, Status::Halted(Fault::StackUnderflow));
    assert_eq!(vm.regs.pc, INITIAL_PC);
    assert_eq!(vm.regs.sp, STACK_SIZE as u16);
}

#[test]
fn sys_only_advances() {
    let mut vm = VM::new();
    vm.regs.v[3] = 9;
    vm.process_opcode(0x0123);
    assert_eq!(vm.regs.pc, INITIAL_PC + 2);
    assert_eq!(vm.regs.v[3], 9);
    assert_eq!(vm.regs.sp, STACK_SIZE as u16);
    assert_eq!(vm.status, Status::Running);
}

#[test]
fn skip_if_equal_byte_advances_two_or_four() {
    let mut vm = VM::new();
    vm.regs.v[0xa] = 0x42;
    vm.process_opcode(0x3a41);
    assert_eq!(vm.regs.pc, INITIAL_PC + 2);
    vm.process_opcode(0x3a42);
    assert_eq!(vm.regs.pc, INITIAL_PC + 6);
}

#[test]
fn skip_if_not_equal_byte_advances_two_or_four() {
    let mut vm = VM::new();
    vm.regs.v[0xa] = 0x42;
    vm.process_opcode(0x4a42);
    assert_eq!(vm.regs.pc, INITIAL_PC + 2);
    vm.process_opcode(0x4a41);
    assert_eq!(vm.regs.pc, INITIAL_PC + 6);
}

#[test]
fn skip_if_registers_equal_advances_two_or_four() {
    let mut vm = VM::new();
    vm.regs.v[3] = 7;
    vm.regs.v[0xf] = 8;
    vm.process_opcode(0x53f0);
    assert_eq!(vm.regs.pc, INITIAL_PC + 2);
    vm.regs.v[0xf] = 7;
    vm.process_opcode(0x53f0);
    assert_eq!(vm.regs.pc, INITIAL_PC + 6);
    vm.process_opcode(0x5330);
    assert_eq!(vm.regs.pc, INITIAL_PC + 10);
}

#[test]
fn skip_if_registers_differ_advances_two_or_four() {
    let mut vm = VM::new();
    vm.regs.v[3] = 7;
    vm.regs.v[4] = 7;
    vm.process_opcode(0x9340);
    assert_eq!(vm.regs.pc, INITIAL_PC + 2);
    vm.regs.v[4] = 8;
    vm.process_opcode(0x9340);
    assert_eq!(vm.regs.pc, INITIAL_PC + 6);
}

#[test]
fn skips_change_nothing_but_pc() {
    let mut vm = VM::new();
    vm.regs.v[1] = 5;
    vm.regs.v[0xf] = 9;
    vm.regs.i = 0x321;
    vm.process_opcode(0x3105);
    vm.process_opcode(0x4105);
    vm.process_opcode(0x5110);
    vm.process_opcode(0x9110);
    assert_eq!(vm.regs.pc, INITIAL_PC + 4 + 2 + 4 + 2);
    assert_eq!(vm.regs.v[1], 5);
    assert_eq!(vm.regs.v[0xf], 9);
    assert_eq!(vm.regs.i, 0x321);
    assert_eq!(vm.regs.sp, STACK_SIZE as u16);
}

#[test]
fn step_fetches_big_endian_word_at_pc() {
    let mut vm = VM::new();
    vm.regs.pc = 0x400;
    vm.memory[0x400] = 0x6a;
    vm.memory[0x401] = 0xbc;
    vm.step();
    assert_eq!(vm.regs.v[0xa], 0xbc);
    assert_eq!(vm.regs.pc, 0x402);
}

#[test]
fn step_runs_a_short_program() {
    let mut vm = VM::new();
    // V0 = 3; loop: V1 += 5; V0 += 0xff; if V0 != 0 jump to loop; jump to self
    vm.write_u16(0x200, 0x6003);
    vm.write_u16(0x202, 0x7105);
    vm.write_u16(0x204, 0x70ff);
    vm.write_u16(0x206, 0x3000);
    vm.write_u16(0x208, 0x1202);
    vm.write_u16(0x20a, 0x120a);
    for _ in 0..20 {
        vm.step();
    }
    assert_eq!(vm.regs.v[0], 0);
    assert_eq!(vm.regs.v[1], 15);
    assert_eq!(vm.regs.pc, 0x20a);
    assert_eq!(vm.status, Status::Running);
}
