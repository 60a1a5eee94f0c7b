use chip8::{Chip8, ExecutionError, Interface, Key};

fn machine() -> Chip8 {
    Chip8::new(Interface::new())
}

fn run(chip: &mut Chip8, program: &[u16]) {
    for opcode in program {
        assert_eq!(chip.execute_instruction(*opcode, 0), Ok(()));
    }
}

fn keypad(indices: &[usize]) -> [bool; 16] {
    let mut keys = [false; 16];
    for index in indices {
        keys[*index] = true;
    }
    keys
}

#[test]
fn keyboard_keys_stand_for_keypad_keys() {
    let layout = [
        (Key::Key1, 0x1), (Key::Key2, 0x2), (Key::Key3, 0x3), (Key::Key4, 0xC),
        (Key::Q, 0x4), (Key::W, 0x5), (Key::E, 0x6), (Key::R, 0xD),
        (Key::A, 0x7), (Key::S, 0x8), (Key::D, 0x9), (Key::F, 0xE),
        (Key::Z, 0xA), (Key::X, 0x0), (Key::C, 0xB), (Key::V, 0xF),
    ];
    let mut seen = [false; 16];
    for (key, index) in layout {
        assert_eq!(key.keypad_index(), Some(index));
        assert!(!seen[index]);
        seen[index] = true;
    }
    assert_eq!(Key::Other.keypad_index(), None);
}

#[test]
fn process_keys_latches_the_keys_held_down() {
    let mut interface = Interface::new();
    interface.process_keys(vec![Key::Key1, Key::V, Key::X]);
    assert_eq!(interface.keypad, keypad(&[0x0, 0x1, 0xF]));
}

#[test]
fn process_keys_maps_every_key() {
    let keys = [
        (Key::Key1, 0x1), (Key::Key2, 0x2), (Key::Key3, 0x3), (Key::Key4, 0xC),
        (Key::Q, 0x4), (Key::W, 0x5), (Key::E, 0x6), (Key::R, 0xD),
        (Key::A, 0x7), (Key::S, 0x8), (Key::D, 0x9), (Key::F, 0xE),
        (Key::Z, 0xA), (Key::X, 0x0), (Key::C, 0xB), (Key::V, 0xF),
    ];
    for (key, index) in keys {
        let mut interface = Interface::new();
        interface.process_keys(vec![key]);
        assert_eq!(interface.keypad, keypad(&[index]));
    }
}

#[test]
fn process_keys_overwrites_the_latch() {
    let mut interface = Interface::new();
    interface.process_keys(vec![Key::Q, Key::W]);
    interface.process_keys(vec![Key::E]);
    assert_eq!(interface.keypad, keypad(&[0x6]));
    interface.process_keys(vec![]);
    assert_eq!(interface.keypad, keypad(&[]));
}

#[test]
fn process_keys_ignores_other_keys_and_repeats() {
    let mut interface = Interface::new();
    interface.process_keys(vec![Key::Other, Key::A, Key::Other, Key::A]);
    assert_eq!(interface.keypad, keypad(&[0x7]));
}

#[test]
fn process_keys_leaves_screen_and_beeper_alone() {
    let mut chip = machine();
    run(&mut chip, &[0x6004, 0xF029, 0xD005]);
    let screen = *chip.display();
    assert!(chip.interface_mut().set_beep(true));
    chip.interface_mut().process_keys(vec![Key::C]);
    assert_eq!(chip.display(), &screen);
    assert!(chip.interface().is_beeping);
    assert_eq!(chip.interface().keypad, keypad(&[0xB]));
}

#[test]
fn the_machine_reads_what_the_host_latched() {
    let mut chip = machine();
    chip.interface_mut().process_keys(vec![Key::W]);
    run(&mut chip, &[0x6005, 0xE09E]);
    assert_eq!(chip.pc(), 0x206);
}

#[test]
fn set_key_changes_one_key() {
    let mut chip = machine();
    chip.set_key(3, true);
    chip.set_key(15, true);
    assert_eq!(chip.interface().keypad, keypad(&[3, 15]));
    chip.set_key(3, false);
    assert_eq!(chip.interface().keypad, keypad(&[15]));
}

#[test]
fn set_keys_overwrites_the_latch() {
    let mut chip = machine();
    chip.set_key(9, true);
    chip.set_keys(&[0, 5, 5, 15]);
    assert_eq!(chip.interface().keypad, keypad(&[0, 5, 15]));
    chip.set_keys(&[]);
    assert_eq!(chip.interface().keypad, keypad(&[]));
}

#[test]
fn set_keys_has_no_key_for_a_number_above_fifteen() {
    let mut chip = machine();
    chip.set_keys(&[16, 200, 2]);
    assert_eq!(chip.interface().keypad, keypad(&[2]));
}

#[test]
fn skip_if_key_pressed() {
    let mut chip = machine();
    chip.set_key(0xA, true);
    run(&mut chip, &[0x600A, 0xE09E]);
    assert_eq!(chip.pc(), 0x206);
    run(&mut chip, &[0x600B, 0xE09E]);
    assert_eq!(chip.pc(), 0x20A);
}

#[test]
fn skip_if_key_not_pressed() {
    let mut chip = machine();
    chip.set_key(0xA, true);
    run(&mut chip, &[0x600A, 0xE0A1]);
    assert_eq!(chip.pc(), 0x204);
    run(&mut chip, &[0x600B, 0xE0A1]);
    assert_eq!(chip.pc(), 0x20A);
}

#[test]
fn a_key_number_above_fifteen_is_out_of_bounds() {
    let mut chip = machine();
    run(&mut chip, &[0x6010]);
    assert_eq!(chip.execute_instruction(0xE09E, 0), Err(ExecutionError::OutOfBoundsAccess));
    assert_eq!(chip.pc(), 0x204);
    assert_eq!(chip.execute_instruction(0xE0A1, 0), Err(ExecutionError::OutOfBoundsAccess));
    assert_eq!(chip.pc(), 0x206);
    run(&mut chip, &[0x600F, 0xE0A1]);
    assert_eq!(chip.pc(), 0x20C);
}

#[test]
fn wait_for_key_holds_the_program_counter_until_a_key_is_down() {
    let mut chip = machine();
    assert_eq!(chip.load_program(&[0xF3, 0x0A, 0x61, 0x01]), Ok(()));
    for _ in 0..50 {
        assert_eq!(chip.emulate_cycle(), Ok(()));
        assert_eq!(chip.pc(), 0x200);
        assert_eq!(chip.registers(), &[0u8; 16]);
    }
    chip.set_key(7, true);
    chip.set_key(4, true);
    chip.set_key(12, true);
    assert_eq!(chip.emulate_cycle(), Ok(()));
    assert_eq!(chip.pc(), 0x202);
    assert_eq!(chip.registers()[3], 4);
    assert_eq!(chip.emulate_cycle(), Ok(()));
    assert_eq!(chip.registers()[1], 1);
    assert_eq!(chip.pc(), 0x204);
}

#[test]
fn wait_for_key_takes_key_zero_and_key_fifteen() {
    let mut chip = machine();
    chip.set_keys(&[15]);
    run(&mut chip, &[0xF50A]);
    assert_eq!(chip.registers()[5], 15);
    chip.set_keys(&[15, 0]);
    run(&mut chip, &[0x6509, 0xF50A]);
    assert_eq!(chip.registers()[5], 0);
}

#[test]
fn wait_for_key_does_not_wait_when_a_key_is_already_down() {
    let mut chip = machine();
    assert_eq!(chip.load_program(&[0xF0, 0x0A]), Ok(()));
    chip.set_key(2, true);
    assert_eq!(chip.emulate_cycle(), Ok(()));
    assert_eq!(chip.registers()[0], 2);
    assert_eq!(chip.pc(), 0x202);
}

#[test]
fn wait_for_key_changes_nothing_while_it_waits() {
    let mut chip = machine();
    run(&mut chip, &[0x6612, 0xA345, 0x2300]);
    let registers = *chip.registers();
    let pc = chip.pc();
    run(&mut chip, &[0xF60A]);
    assert_eq!(chip.pc(), pc);
    assert_eq!(chip.registers(), &registers);
    assert_eq!(chip.index(), 0x345);
    assert_eq!(chip.stack_depth(), 1);
}
