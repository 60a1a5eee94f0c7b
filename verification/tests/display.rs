use chip8::{Chip8, ExecutionError, Interface, PIXEL_OFF, PIXEL_ON};

fn machine() -> Chip8 {
    Chip8::new(Interface::new())
}

fn run(chip: &mut Chip8, program: &[u16]) {
    for opcode in program {
        assert_eq!(chip.execute_instruction(*opcode, 0), Ok(()));
    }
}

fn lit(chip: &Chip8) -> Vec<(usize, usize)> {
    let mut pixels = Vec::new();
    for y in 0..32 {
        for x in 0..64 {
            if chip.display()[y * 64 + x] {
                pixels.push((x, y));
            }
        }
    }
    pixels
}

#[test]
fn draw_the_glyph_for_zero() {
    let mut chip = machine();
    run(&mut chip, &[0x6000, 0xF029, 0x6102, 0x6203, 0xD125]);
    let expected = vec![
        (2, 3), (3, 3), (4, 3), (5, 3),
        (2, 4), (5, 4),
        (2, 5), (5, 5),
        (2, 6), (5, 6),
        (2, 7), (3, 7), (4, 7), (5, 7),
    ];
    assert_eq!(lit(&chip), expected);
    assert_eq!(chip.registers()[0xF], 0);
    assert_eq!(chip.registers()[1], 2);
    assert_eq!(chip.registers()[2], 3);
    assert_eq!(chip.index(), 0);
}

#[test]
fn draw_uses_every_bit_of_a_row() {
    let mut chip = machine();
    assert_eq!(chip.load_program(&[0xA5, 0xFF]), Ok(()));
    run(&mut chip, &[0xA200, 0x6008, 0x6101, 0xD012]);
    let expected = vec![
        (8, 1), (10, 1), (13, 1), (15, 1),
        (8, 2), (9, 2), (10, 2), (11, 2), (12, 2), (13, 2), (14, 2), (15, 2),
    ];
    assert_eq!(lit(&chip), expected);
}

#[test]
fn draw_resets_the_flag_when_nothing_collides() {
    let mut chip = machine();
    run(&mut chip, &[0x6F01, 0x6000, 0xD005]);
    assert_eq!(chip.registers()[0xF], 0);
}

#[test]
fn drawing_twice_restores_the_screen_and_reports_the_collision() {
    let mut chip = machine();
    run(&mut chip, &[0x600A, 0xF029, 0x6114, 0x620A, 0xD125]);
    assert_eq!(chip.registers()[0xF], 0);
    assert_eq!(lit(&chip).len(), 14);
    run(&mut chip, &[0xD125]);
    assert_eq!(chip.registers()[0xF], 1);
    assert!(lit(&chip).is_empty());
}

#[test]
fn drawing_twice_over_a_picture_restores_the_picture() {
    let mut chip = machine();
    run(&mut chip, &[0x6008, 0xF029, 0x6100, 0x6200, 0xD125, 0x6101, 0xD125]);
    let picture = lit(&chip);
    let flag = chip.registers()[0xF];
    assert_eq!(flag, 1);
    run(&mut chip, &[0x6003, 0xF029, 0x6102, 0x6201, 0xD125]);
    assert_ne!(lit(&chip), picture);
    run(&mut chip, &[0xD125]);
    assert_eq!(lit(&chip), picture);
    assert_eq!(chip.registers()[0xF], 1);
}

#[test]
fn the_second_drawing_collides_only_with_what_the_first_lit() {
    let mut chip = machine();
    assert_eq!(chip.load_program(&[0x80]), Ok(()));
    run(&mut chip, &[0xA200, 0x6005, 0x6105, 0xD011]);
    assert_eq!(lit(&chip), vec![(5, 5)]);
    assert_eq!(chip.registers()[0xF], 0);
    run(&mut chip, &[0xD011]);
    assert!(lit(&chip).is_empty());
    assert_eq!(chip.registers()[0xF], 1);
    run(&mut chip, &[0xD011]);
    assert_eq!(lit(&chip), vec![(5, 5)]);
    assert_eq!(chip.registers()[0xF], 0);
}

#[test]
fn a_partial_overlap_is_a_collision() {
    let mut chip = machine();
    assert_eq!(chip.load_program(&[0xC0, 0x60]), Ok(()));
    run(&mut chip, &[0xA200, 0x6000, 0x6100, 0xD011]);
    assert_eq!(lit(&chip), vec![(0, 0), (1, 0)]);
    run(&mut chip, &[0xA201, 0xD011]);
    assert_eq!(lit(&chip), vec![(0, 0), (2, 0)]);
    assert_eq!(chip.registers()[0xF], 1);
}

#[test]
fn sprites_side_by_side_do_not_collide() {
    let mut chip = machine();
    assert_eq!(chip.load_program(&[0xFF]), Ok(()));
    run(&mut chip, &[0xA200, 0x6000, 0x6100, 0xD011, 0x6008, 0xD011]);
    assert_eq!(lit(&chip).len(), 16);
    assert_eq!(chip.registers()[0xF], 0);
}

#[test]
fn draw_wraps_around_the_right_edge() {
    let mut chip = machine();
    assert_eq!(chip.load_program(&[0xF0]), Ok(()));
    run(&mut chip, &[0xA200, 0x603E, 0x6107, 0xD011]);
    assert_eq!(lit(&chip), vec![(0, 7), (1, 7), (62, 7), (63, 7)]);
}

#[test]
fn draw_wraps_around_the_bottom_edge() {
    let mut chip = machine();
    assert_eq!(chip.load_program(&[0x80, 0x80, 0x80, 0x80]), Ok(()));
    run(&mut chip, &[0xA200, 0x6009, 0x611E, 0xD014]);
    assert_eq!(lit(&chip), vec![(9, 0), (9, 1), (9, 30), (9, 31)]);
}

#[test]
fn draw_takes_coordinates_modulo_the_screen_size() {
    let mut chip = machine();
    assert_eq!(chip.load_program(&[0x80]), Ok(()));
    run(&mut chip, &[0xA200, 0x6043, 0x6125, 0xD011]);
    assert_eq!(lit(&chip), vec![(3, 5)]);
    run(&mut chip, &[0x00E0, 0x60FF, 0x61FF, 0xD011]);
    assert_eq!(lit(&chip), vec![(63, 31)]);
}

#[test]
fn draw_wraps_at_both_edges_at_once() {
    let mut chip = machine();
    assert_eq!(chip.load_program(&[0xC0, 0xC0]), Ok(()));
    run(&mut chip, &[0xA200, 0x603F, 0x611F, 0xD012]);
    assert_eq!(lit(&chip), vec![(0, 0), (63, 0), (0, 31), (63, 31)]);
}

#[test]
fn draw_of_fifteen_rows() {
    let mut chip = machine();
    assert_eq!(chip.load_program(&[0x01; 15]), Ok(()));
    run(&mut chip, &[0xA200, 0x6000, 0x6114, 0xD01F]);
    let mut expected = Vec::new();
    for y in 0..3 {
        expected.push((7, y));
    }
    for y in 20..32 {
        expected.push((7, y));
    }
    assert_eq!(lit(&chip), expected);
}

#[test]
fn draw_of_no_rows_draws_nothing_and_clears_the_flag() {
    let mut chip = machine();
    run(&mut chip, &[0x6F01, 0x6000, 0xD000]);
    assert!(lit(&chip).is_empty());
    assert_eq!(chip.registers()[0xF], 0);
}

#[test]
fn draw_of_no_rows_reads_no_memory() {
    let mut chip = machine();
    run(&mut chip, &[0xAFFF, 0x60FF, 0xF01E, 0xD000]);
    assert_eq!(chip.index(), 0x10FE);
    assert!(lit(&chip).is_empty());
}

#[test]
fn draw_reads_the_last_byte_of_memory() {
    let mut chip = machine();
    run(&mut chip, &[0x6080, 0xAFFF, 0xF055, 0x6000, 0xD001]);
    assert_eq!(lit(&chip), vec![(0, 0)]);
}

#[test]
fn draw_past_the_end_of_memory_is_out_of_bounds() {
    let mut chip = machine();
    run(&mut chip, &[0x6F07, 0x6080, 0xAFFF, 0xF055, 0x6000]);
    assert_eq!(chip.execute_instruction(0xD002, 0), Err(ExecutionError::OutOfBoundsAccess));
    assert!(lit(&chip).is_empty());
    assert_eq!(chip.registers()[0xF], 7);
    assert_eq!(chip.pc(), 0x20C);
}

#[test]
fn draw_takes_its_place_from_the_flag_register_before_resetting_it() {
    let mut chip = machine();
    assert_eq!(chip.load_program(&[0x80]), Ok(()));
    run(&mut chip, &[0xA200, 0x6F05, 0x6103, 0xDF11]);
    assert_eq!(lit(&chip), vec![(5, 3)]);
    assert_eq!(chip.registers()[0xF], 0);
    run(&mut chip, &[0xDF11]);
    assert_eq!(lit(&chip), vec![(0, 3), (5, 3)]);
    assert_eq!(chip.registers()[0xF], 0);
}

#[test]
fn clear_screen_turns_every_pixel_off() {
    let mut chip = machine();
    run(&mut chip, &[0x6008, 0xF029, 0xD005, 0x6F09, 0x00E0]);
    assert!(lit(&chip).is_empty());
    assert_eq!(chip.registers()[0xF], 9);
    assert_eq!(chip.pc(), 0x20A);
}

#[test]
fn clear_screen_ignores_the_second_nibble() {
    let mut chip = machine();
    run(&mut chip, &[0x6008, 0xF029, 0xD005, 0x05E0]);
    assert!(lit(&chip).is_empty());
}

#[test]
fn render_screen_gives_one_colour_per_pixel() {
    let mut chip = machine();
    assert_eq!(chip.load_program(&[0xA0]), Ok(()));
    run(&mut chip, &[0xA200, 0x6001, 0x6101, 0xD011]);
    let frame = chip.interface().render_screen();
    assert_eq!(frame.len(), 64 * 32);
    for (index, colour) in frame.iter().enumerate() {
        let expected = if index == 64 + 1 || index == 64 + 3 { 0xFFFFFF } else { 0 };
        assert_eq!(*colour, expected);
    }
    assert_eq!(PIXEL_ON, 0xFFFFFF);
    assert_eq!(PIXEL_OFF, 0);
}

#[test]
fn render_screen_of_a_blank_screen_is_black() {
    let interface = Interface::new();
    assert_eq!(interface.render_screen(), vec![0u32; 2048]);
}

#[test]
fn display_and_interface_show_the_same_screen() {
    let mut chip = machine();
    run(&mut chip, &[0x6004, 0xF029, 0xD005]);
    assert_eq!(chip.display(), &chip.interface().screen);
}
