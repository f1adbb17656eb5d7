use rsc8_core::chip8::{Chip8, MEMORY_SIZE, SCREEN_SIZE};
use rsc8_core::display::draw_sprite;
use rsc8_core::instruction::{Instruction, InstructionError};
use rsc8_core::rng::LinearCongruentialGenerator;

fn machine() -> Chip8<LinearCongruentialGenerator> {
    let mut chip8 = Chip8::new(LinearCongruentialGenerator::default());
    chip8.load_fontset();
    chip8
}

fn lit(chip8: &Chip8<LinearCongruentialGenerator>) -> Vec<(usize, usize)> {
    let mut pixels = Vec::new();
    for (index, pixel) in chip8.screen.iter().enumerate() {
        if *pixel {
            pixels.push((index % 64, index / 64));
        }
    }
    pixels
}

#[test]
fn draws_a_glyph() {
    let mut chip8 = machine();
    // The glyph of 1: 0x20, 0x60, 0x20, 0x20, 0x70.
    chip8.register_i = 5;
    chip8.register_v[0] = 10;
    chip8.register_v[1] = 3;
    chip8.register_v[0xF] = 1;
    assert_eq!(chip8.execute_instruction(&Instruction::InsDXYN(0, 1, 5)), Ok(()));
    assert_eq!(
        lit(&chip8),
        vec![(12, 3), (11, 4), (12, 4), (12, 5), (12, 6), (11, 7), (12, 7), (13, 7)]
    );
    assert_eq!(chip8.register_v[0xF], 0);
    assert!(chip8.draw_flag);
    assert_eq!(chip8.register_i, 5);
}

#[test]
fn most_significant_bit_is_the_leftmost_pixel() {
    let mut chip8 = machine();
    chip8.memory[0x300] = 0b1000_0001;
    chip8.register_i = 0x300;
    assert_eq!(chip8.execute_instruction(&Instruction::InsDXYN(0, 0, 1)), Ok(()));
    assert_eq!(lit(&chip8), vec![(0, 0), (7, 0)]);
}

#[test]
fn drawing_twice_sets_the_flag_and_clears_the_screen() {
    let mut chip8 = machine();
    chip8.register_i = 0;
    chip8.register_v[0] = 20;
    chip8.register_v[1] = 10;
    assert_eq!(chip8.execute_instruction(&Instruction::InsDXYN(0, 1, 5)), Ok(()));
    assert_eq!(chip8.register_v[0xF], 0);
    assert!(chip8.screen.iter().any(|pixel| *pixel));
    chip8.draw_flag = false;
    assert_eq!(chip8.execute_instruction(&Instruction::InsDXYN(0, 1, 5)), Ok(()));
    assert_eq!(chip8.register_v[0xF], 1);
    assert!(chip8.screen.iter().all(|pixel| !*pixel));
    assert!(chip8.draw_flag);
}

#[test]
fn drawing_twice_restores_any_screen() {
    let mut chip8 = machine();
    for index in 0..SCREEN_SIZE {
        chip8.screen[index] = index % 3 == 0;
    }
    let before = chip8.screen;
    chip8.register_i = 10;
    chip8.register_v[4] = 61;
    chip8.register_v[5] = 29;
    chip8.execute_instruction(&Instruction::InsDXYN(4, 5, 5)).unwrap();
    assert!(chip8.screen != before);
    chip8.execute_instruction(&Instruction::InsDXYN(4, 5, 5)).unwrap();
    assert!(chip8.screen == before);
}

#[test]
fn overlap_of_two_sprites_collides() {
    let mut chip8 = machine();
    chip8.memory[0x300] = 0b1111_0000;
    chip8.memory[0x301] = 0b0001_1000;
    chip8.register_i = 0x300;
    chip8.execute_instruction(&Instruction::InsDXYN(0, 0, 1)).unwrap();
    assert_eq!(chip8.register_v[0xF], 0);
    chip8.register_i = 0x301;
    chip8.execute_instruction(&Instruction::InsDXYN(0, 0, 1)).unwrap();
    assert_eq!(chip8.register_v[0xF], 1);
    assert_eq!(lit(&chip8), vec![(0, 0), (1, 0), (2, 0), (4, 0)]);
    chip8.memory[0x302] = 0b0000_0011;
    chip8.register_i = 0x302;
    chip8.execute_instruction(&Instruction::InsDXYN(0, 0, 1)).unwrap();
    assert_eq!(chip8.register_v[0xF], 0);
}

#[test]
fn sprite_at_column_60_shows_its_four_left_columns() {
    let mut chip8 = machine();
    chip8.memory[0x300] = 0xFF;
    chip8.memory[0x301] = 0b1010_0101;
    chip8.register_i = 0x300;
    chip8.register_v[0] = 60;
    chip8.register_v[1] = 0;
    assert_eq!(chip8.execute_instruction(&Instruction::InsDXYN(0, 1, 2)), Ok(()));
    assert_eq!(lit(&chip8), vec![(60, 0), (61, 0), (62, 0), (63, 0), (60, 1), (62, 1)]);
    for row in 0..32 {
        assert!(!chip8.screen[row * 64]);
    }
}

#[test]
fn sprite_is_clipped_at_the_bottom() {
    let mut chip8 = machine();
    for offset in 0..4 {
        chip8.memory[0x300 + offset] = 0x80;
    }
    chip8.register_i = 0x300;
    chip8.register_v[0] = 0;
    chip8.register_v[1] = 30;
    assert_eq!(chip8.execute_instruction(&Instruction::InsDXYN(0, 1, 4)), Ok(()));
    assert_eq!(lit(&chip8), vec![(0, 30), (0, 31)]);
}

#[test]
fn start_point_wraps_round_the_screen() {
    let mut chip8 = machine();
    chip8.memory[0x300] = 0xC0;
    chip8.register_i = 0x300;
    chip8.register_v[0] = 64 + 5;
    chip8.register_v[1] = 32 + 7;
    assert_eq!(chip8.execute_instruction(&Instruction::InsDXYN(0, 1, 1)), Ok(()));
    assert_eq!(lit(&chip8), vec![(5, 7), (6, 7)]);
    chip8.register_v[0] = 255;
    chip8.register_v[1] = 255;
    assert_eq!(chip8.execute_instruction(&Instruction::InsDXYN(0, 1, 1)), Ok(()));
    assert_eq!(lit(&chip8), vec![(5, 7), (6, 7), (63, 31)]);
}

#[test]
fn coordinates_are_read_before_the_flag_is_cleared() {
    let mut chip8 = machine();
    chip8.memory[0x300] = 0x80;
    chip8.register_i = 0x300;
    chip8.register_v[0xF] = 9;
    chip8.register_v[1] = 2;
    assert_eq!(chip8.execute_instruction(&Instruction::InsDXYN(0xF, 1, 1)), Ok(()));
    assert_eq!(lit(&chip8), vec![(9, 2)]);
    assert_eq!(chip8.register_v[0xF], 0);
}

#[test]
fn sprite_of_no_rows_only_sets_the_flags() {
    let mut chip8 = machine();
    chip8.register_v[0xF] = 1;
    chip8.register_i = 0xFFFF;
    assert_eq!(chip8.execute_instruction(&Instruction::InsDXYN(0, 1, 0)), Ok(()));
    assert!(chip8.screen.iter().all(|pixel| !*pixel));
    assert_eq!(chip8.register_v[0xF], 0);
    assert!(chip8.draw_flag);
}

#[test]
fn sprite_must_lie_in_memory() {
    let mut chip8 = machine();
    chip8.memory[0xFFE] = 0x80;
    chip8.memory[0xFFF] = 0x80;
    chip8.register_i = 0xFFE;
    chip8.register_v[0xF] = 1;
    assert_eq!(
        chip8.execute_instruction(&Instruction::InsDXYN(0, 1, 3)),
        Err(InstructionError::AddressOutOfRange)
    );
    assert!(chip8.screen.iter().all(|pixel| !*pixel));
    assert_eq!(chip8.register_v[0xF], 1);
    assert!(!chip8.draw_flag);
    assert_eq!(chip8.execute_instruction(&Instruction::InsDXYN(0, 1, 2)), Ok(()));
    assert_eq!(lit(&chip8), vec![(0, 0), (0, 1)]);
}

#[test]
fn rows_clipped_at_the_bottom_are_not_read() {
    let mut chip8 = machine();
    chip8.memory[0xFFF] = 0x80;
    chip8.register_i = 0xFFF;
    chip8.register_v[1] = 31;
    assert_eq!(chip8.execute_instruction(&Instruction::InsDXYN(0, 1, 15)), Ok(()));
    assert_eq!(lit(&chip8), vec![(0, 31)]);
}

#[test]
fn draw_sprite_reports_a_hit() {
    let mut screen = [false; SCREEN_SIZE];
    let mut memory = [0u8; MEMORY_SIZE];
    memory[0x200] = 0x0F;
    memory[0x201] = 0xF0;
    screen[64 + 3] = true;
    assert!(draw_sprite(&mut screen, &memory, 0x200, 2, 0, 0));
    assert!(!screen[64 + 3]);
    assert!(screen[4] && screen[5] && screen[6] && screen[7]);
    assert!(screen[64] && screen[64 + 1] && screen[64 + 2]);
    assert!(!draw_sprite(&mut screen, &memory, 0x202, 2, 0, 0));
}
