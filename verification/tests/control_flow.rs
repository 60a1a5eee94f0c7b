use chip8::{Chip8, ExecutionError, Interface};

fn machine() -> Chip8 {
    Chip8::new(Interface::new())
}

fn run(chip: &mut Chip8, program: &[u16]) {
    for opcode in program {
        assert_eq!(chip.execute_instruction(*opcode, 0), Ok(()));
    }
}

#[test]
fn power_on_state() {
    let chip = machine();
    assert_eq!(chip.pc(), 0x200);
    assert_eq!(chip.index(), 0);
    assert_eq!(chip.registers(), &[0u8; 16]);
    assert_eq!(chip.stack_depth(), 0);
    assert_eq!(chip.delay_timer(), 0);
    assert_eq!(chip.sound_timer(), 0);
    assert!(chip.display().iter().all(|pixel| !pixel));
    assert!(chip.interface().keypad.iter().all(|key| !key));
}

#[test]
fn every_instruction_moves_the_program_counter_by_two() {
    let mut chip = machine();
    run(&mut chip, &[0x6000]);
    assert_eq!(chip.pc(), 0x202);
    run(&mut chip, &[0xA000]);
    assert_eq!(chip.pc(), 0x204);
}

#[test]
fn jump_sets_the_program_counter() {
    let mut chip = machine();
    run(&mut chip, &[0x1ABC]);
    assert_eq!(chip.pc(), 0xABC);
    assert_eq!(chip.stack_depth(), 0);
}

#[test]
fn jump_offset_adds_v0() {
    let mut chip = machine();
    run(&mut chip, &[0x6010, 0xB300]);
    assert_eq!(chip.pc(), 0x310);
    run(&mut chip, &[0x60FF, 0xBFFF]);
    assert_eq!(chip.pc(), 0x10FE);
}

#[test]
fn call_pushes_the_address_of_the_next_instruction() {
    let mut chip = machine();
    run(&mut chip, &[0x2400]);
    assert_eq!(chip.pc(), 0x400);
    assert_eq!(chip.stack_depth(), 1);
    run(&mut chip, &[0x00EE]);
    assert_eq!(chip.pc(), 0x202);
    assert_eq!(chip.stack_depth(), 0);
}

#[test]
fn nested_calls_return_in_reverse_order() {
    let mut chip = machine();
    run(&mut chip, &[0x2300, 0x2400, 0x2500]);
    assert_eq!(chip.pc(), 0x500);
    assert_eq!(chip.stack_depth(), 3);
    run(&mut chip, &[0x00EE]);
    assert_eq!(chip.pc(), 0x402);
    run(&mut chip, &[0x00EE]);
    assert_eq!(chip.pc(), 0x302);
    run(&mut chip, &[0x00EE]);
    assert_eq!(chip.pc(), 0x202);
    assert_eq!(chip.stack_depth(), 0);
}

#[test]
fn return_on_an_empty_stack_is_an_underflow() {
    let mut chip = machine();
    assert_eq!(chip.execute_instruction(0x00EE, 0), Err(ExecutionError::StackUnderflow));
    assert_eq!(chip.pc(), 0x202);
    assert_eq!(chip.stack_depth(), 0);
}

#[test]
fn the_seventeenth_call_is_an_overflow() {
    let mut chip = machine();
    for level in 0..16 {
        assert_eq!(chip.execute_instruction(0x2300, 0), Ok(()));
        assert_eq!(chip.stack_depth(), level + 1);
    }
    assert_eq!(chip.execute_instruction(0x2400, 0), Err(ExecutionError::StackOverflow));
    assert_eq!(chip.stack_depth(), 16);
    assert_eq!(chip.pc(), 0x302);
    run(&mut chip, &[0x00EE]);
    assert_eq!(chip.pc(), 0x302);
    assert_eq!(chip.stack_depth(), 15);
}

#[test]
fn skip_eq_imm() {
    let mut chip = machine();
    run(&mut chip, &[0x6142, 0x3142]);
    assert_eq!(chip.pc(), 0x206);
    run(&mut chip, &[0x3143]);
    assert_eq!(chip.pc(), 0x208);
}

#[test]
fn skip_ne_imm() {
    let mut chip = machine();
    run(&mut chip, &[0x6142, 0x4142]);
    assert_eq!(chip.pc(), 0x204);
    run(&mut chip, &[0x4143]);
    assert_eq!(chip.pc(), 0x208);
}

#[test]
fn skip_eq_reg() {
    let mut chip = machine();
    run(&mut chip, &[0x6142, 0x6242, 0x5120]);
    assert_eq!(chip.pc(), 0x208);
    run(&mut chip, &[0x6243, 0x5120]);
    assert_eq!(chip.pc(), 0x20C);
}

#[test]
fn skip_ne_reg() {
    let mut chip = machine();
    run(&mut chip, &[0x6142, 0x6242, 0x9120]);
    assert_eq!(chip.pc(), 0x206);
    run(&mut chip, &[0x6243, 0x9120]);
    assert_eq!(chip.pc(), 0x20C);
}

#[test]
fn unknown_opcodes_are_reported_and_skipped() {
    for opcode in [0x0000u16, 0x0123, 0x8008, 0x800F, 0xE000, 0xE19F, 0xF000, 0xF1FF, 0xF066] {
        let mut chip = machine();
        assert_eq!(
            chip.execute_instruction(opcode, 0),
            Err(ExecutionError::UnknownOpcode { opcode })
        );
        assert_eq!(chip.pc(), 0x202);
        assert_eq!(chip.registers(), &[0u8; 16]);
        assert_eq!(chip.index(), 0);
        assert_eq!(chip.stack_depth(), 0);
    }
}

#[test]
fn execution_goes_on_after_an_unknown_opcode() {
    let mut chip = machine();
    assert_eq!(chip.load_program(&[0xFF, 0xFF, 0x60, 0x09]), Ok(()));
    assert_eq!(chip.emulate_cycle(), Err(ExecutionError::UnknownOpcode { opcode: 0xFFFF }));
    assert_eq!(chip.emulate_cycle(), Ok(()));
    assert_eq!(chip.registers()[0], 9);
    assert_eq!(chip.pc(), 0x204);
}

#[test]
fn only_unknown_opcodes_are_recoverable() {
    assert!(!ExecutionError::UnknownOpcode { opcode: 0xFFFF }.is_fatal());
    assert!(ExecutionError::StackOverflow.is_fatal());
    assert!(ExecutionError::StackUnderflow.is_fatal());
    assert!(ExecutionError::OutOfBoundsAccess.is_fatal());
}

#[test]
fn fetch_reads_big_endian() {
    let mut chip = machine();
    assert_eq!(chip.load_program(&[0x12, 0x34]), Ok(()));
    assert_eq!(chip.fetch_instruction(), Ok(0x1234));
    assert_eq!(chip.pc(), 0x200);
}

#[test]
fn fetch_past_the_end_of_memory_is_out_of_bounds() {
    let mut chip = machine();
    run(&mut chip, &[0x1FFF]);
    assert_eq!(chip.fetch_instruction(), Err(ExecutionError::OutOfBoundsAccess));
    assert_eq!(chip.emulate_cycle(), Err(ExecutionError::OutOfBoundsAccess));
    assert_eq!(chip.pc(), 0xFFF);
    run(&mut chip, &[0x1FFE]);
    assert_eq!(chip.fetch_instruction(), Ok(0x0000));
}

#[test]
fn fetch_beyond_memory_after_a_jump_offset_is_out_of_bounds() {
    let mut chip = machine();
    run(&mut chip, &[0x60FF, 0xBFFF]);
    assert_eq!(chip.emulate_cycle(), Err(ExecutionError::OutOfBoundsAccess));
    assert_eq!(chip.pc(), 0x10FE);
}

#[test]
fn group_zero_is_told_apart_by_the_low_byte() {
    let mut chip = machine();
    run(&mut chip, &[0x2300, 0x01EE]);
    assert_eq!(chip.pc(), 0x202);
}

#[test]
fn end_to_end_add_and_loop() {
    let mut chip = machine();
    let rom = [0x60, 0x05, 0x61, 0x0A, 0x80, 0x14, 0x12, 0x06];
    assert_eq!(chip.load_program(&rom), Ok(()));
    for _ in 0..4 {
        assert_eq!(chip.emulate_cycle(), Ok(()));
    }
    assert_eq!(chip.registers()[0], 15);
    assert_eq!(chip.registers()[1], 10);
    assert_eq!(chip.registers()[0xF], 0);
    assert_eq!(chip.pc(), 0x206);
    for _ in 0..100 {
        assert_eq!(chip.emulate_cycle(), Ok(()));
        assert_eq!(chip.pc(), 0x206);
    }
    assert_eq!(chip.registers()[0], 15);
}
