use chip8::status::{Fault, Status};
use chip8::vm::{INITIAL_PC, MEMORY_SIZE, STACK_SIZE, VM, V_REG_SIZE};

#[test]
fn unknown_register_operation_is_a_decode_fault() {
    for low in [0x8u16, 0x9, 0xa, 0xb, 0xc, 0xd, 0xf] {
        let mut vm = VM::new();
        vm.regs.v[1] = 3;
        vm.regs.v[2] = 4;
        vm.process_opcode(0x8120 | low);
        assert_eq!(vm.status, Status::Halted(Fault::Decode));
        assert_eq!(vm.regs.pc, INITIAL_PC);
        assert_eq!(vm.regs.v[1], 3);
        assert_eq!(vm.regs.v[0xf], 0);
    }
}

#[test]
fn unknown_key_operation_is_a_decode_fault() {
    for word in [0xe000u16, 0xe19f, 0xe1a0, 0xe00e, 0xe0b1, 0xe001] {
        let mut vm = VM::new();
        vm.process_opcode(word);
        assert_eq!(vm.status, Status::Halted(Fault::Decode));
        assert_eq!(vm.regs.pc, INITIAL_PC);
    }
}

#[test]
fn unknown_misc_operation_is_a_decode_fault() {
    for word in [0xf000u16, 0xf1ff, 0xf205, 0xf30b, 0xf41f, 0xf566, 0xf654, 0xf734] {
        let mut vm = VM::new();
        vm.process_opcode(word);
        assert_eq!(vm.status, Status::Halted(Fault::Decode));
        assert_eq!(vm.regs.pc, INITIAL_PC);
    }
}

#[test]
fn every_word_of_the_other_families_decodes() {
    for family in [0x0u16, 0x1, 0x3, 0x4, 0x5, 0x6, 0x7, 0x9, 0xa, 0xc] {
        for low in [0x000u16, 0x001, 0x0e1, 0x123, 0xfff] {
            let mut vm = VM::new();
            vm.process_opcode((family << 12) | low);
            assert_eq!(vm.status, Status::Running);
        }
    }
}

#[test]
fn fetch_past_the_end_of_memory_halts() {
    let mut vm = VM::new();
    vm.regs.pc = 0xfff;
    vm.step();
    assert_eq!(vm.status, Status::Halted(Fault::AddressOutOfRange));
    assert_eq!(vm.regs.pc, 0xfff);

    let mut vm = VM::new();
    vm.regs.pc = 0xffff;
    vm.step();
    assert_eq!(vm.status, Status::Halted(Fault::AddressOutOfRange));
    assert_eq!(vm.regs.pc, 0xffff);
}

#[test]
fn last_instruction_of_memory_executes_and_the_next_fetch_halts() {
    let mut vm = VM::new();
    vm.regs.pc = 0xffe;
    vm.write_u16(0xffe, 0x6a11);
    vm.step();
    assert_eq!(vm.status, Status::Running);
    assert_eq!(vm.regs.v[0xa], 0x11);
    assert_eq!(vm.regs.pc, 0x1000);
    vm.step();
    assert_eq!(vm.status, Status::Halted(Fault::AddressOutOfRange));
    assert_eq!(vm.regs.pc, 0x1000);
}

#[test]
fn process_opcode_checks_the_program_counter_too() {
    let mut vm = VM::new();
    vm.regs.pc = 0xfff;
    vm.process_opcode(0x6a11);
    assert_eq!(vm.status, Status::Halted(Fault::AddressOutOfRange));
    assert_eq!(vm.regs.v[0xa], 0);
}

#[test]
fn store_registers_outside_memory_halts_and_writes_nothing() {
    let mut vm = VM::new();
    vm.regs.v[0] = 1;
    vm.regs.v[1] = 2;
    vm.regs.i = 0xfff;
    vm.process_opcode(0xf155);
    assert_eq!(vm.status, Status::Halted(Fault::AddressOutOfRange));
    assert_eq!(vm.memory, [0; MEMORY_SIZE]);
    assert_eq!(vm.regs.pc, INITIAL_PC);
}

#[test]
fn store_registers_up_to_the_last_byte_succeeds() {
    let mut vm = VM::new();
    vm.regs.v[0] = 1;
    vm.regs.v[1] = 2;
    vm.regs.i = 0xffe;
    vm.process_opcode(0xf155);
    assert_eq!(vm.status, Status::Running);
    assert_eq!(vm.memory[0xffe], 1);
    assert_eq!(vm.memory[0xfff], 2);
}

#[test]
fn load_registers_outside_memory_halts_and_loads_nothing() {
    let mut vm = VM::new();
    vm.memory[0xfff] = 9;
    vm.regs.i = 0xfff;
    vm.process_opcode(0xf165);
    assert_eq!(vm.status, Status::Halted(Fault::AddressOutOfRange));
    assert_eq!(vm.regs.v, [0; V_REG_SIZE]);
}

#[test]
fn bcd_outside_memory_halts() {
    let mut vm = VM::new();
    vm.regs.v[0] = 123;
    vm.regs.i = 0xffe;
    vm.process_opcode(0xf033);
    assert_eq!(vm.status, Status::Halted(Fault::AddressOutOfRange));
    assert_eq!(vm.memory, [0; MEMORY_SIZE]);

    let mut vm = VM::new();
    vm.regs.v[0] = 123;
    vm.regs.i = 0xffd;
    vm.process_opcode(0xf033);
    assert_eq!(vm.status, Status::Running);
    assert_eq!(vm.memory[0xffd], 1);
    assert_eq!(vm.memory[0xffe], 2);
    assert_eq!(vm.memory[0xfff], 3);
}

#[test]
fn sprite_outside_memory_halts() {
    let mut vm = VM::new();
    vm.regs.i = 0xfff;
    vm.process_opcode(0xd012);
    assert_eq!(vm.status, Status::Halted(Fault::AddressOutOfRange));
    assert_eq!(vm.regs.pc, INITIAL_PC);

    let mut vm = VM::new();
    vm.regs.i = 0xfff;
    vm.process_opcode(0xd011);
    assert_eq!(vm.status, Status::Running);
    assert_eq!(vm.regs.pc, INITIAL_PC + 2);
}

#[test]
fn empty_sprite_uses_no_address() {
    let mut vm = VM::new();
    vm.regs.i = 0xffff;
    vm.regs.v[0xf] = 1;
    vm.process_opcode(0xd010);
    assert_eq!(vm.status, Status::Running);
    assert_eq!(vm.regs.v[0xf], 0);
    assert_eq!(vm.regs.pc, INITIAL_PC + 2);
}

#[test]
fn halted_machine_executes_nothing() {
    let mut vm = VM::new();
    vm.write_u16(0x200, 0xf0ff);
    vm.write_u16(0x202, 0x6a11);
    vm.step();
    assert_eq!(vm.status, Status::Halted(Fault::Decode));
    vm.step();
    vm.process_opcode(0x6a11);
    vm.process_opcode(0x1300);
    assert_eq!(vm.status, Status::Halted(Fault::Decode));
    assert_eq!(vm.regs.pc, INITIAL_PC);
    assert_eq!(vm.regs.v[0xa], 0);
}

#[test]
fn reset_revives_a_halted_machine() {
    let mut vm = VM::new();
    vm.process_opcode(0x00ee);
    assert_eq!(vm.status, Status::Halted(Fault::StackUnderflow));
    vm.reset();
    assert_eq!(vm.status, Status::Running);
    assert_eq!(vm.regs.pc, INITIAL_PC);
    assert_eq!(vm.regs.sp, STACK_SIZE as u16);
    vm.process_opcode(0x6a11);
    assert_eq!(vm.regs.v[0xa], 0x11);
}

#[test]
fn fault_names_what_halted_the_machine() {
    let mut vm = VM::new();
    assert_eq!(vm.fault(), None);
    vm.process_opcode(0xf00a);
    assert_eq!(vm.fault(), None);
    assert!(vm.is_awaiting_key());
    vm.key_down(0);
    assert!(!vm.is_awaiting_key());

    vm.process_opcode(0x00ee);
    assert_eq!(vm.fault(), Some(Fault::StackUnderflow));
    assert!(!vm.is_awaiting_key());

    let mut vm = VM::new();
    vm.process_opcode(0x800f);
    assert_eq!(vm.fault(), Some(Fault::Decode));

    let mut vm = VM::new();
    vm.regs.sp = 0;
    vm.process_opcode(0x2300);
    assert_eq!(vm.fault(), Some(Fault::StackOverflow));

    let mut vm = VM::new();
    vm.regs.pc = 0x1000;
    vm.step();
    assert_eq!(vm.fault(), Some(Fault::AddressOutOfRange));
}
