use rsc8_core::chip8::{Chip8, SCREEN_SIZE};
use rsc8_core::frontend::{
    handle_input, lit_cells, pc_key_code_to_chip8_key_code, run_frame, Cells, FrameSignals,
    InputEvent, KeyEventKind, FRAME_RATE, KEYPAD_RESET_COUNTDOWN_INIT, KEY_MAP, TICK_PER_FRAME,
};
use rsc8_core::instruction::InstructionError;
use rsc8_core::rng::LinearCongruentialGenerator;

fn machine_with(program: &[u8]) -> Chip8<LinearCongruentialGenerator> {
    let mut chip8 = Chip8::new(LinearCongruentialGenerator::default());
    chip8.load_fontset();
    chip8.load_rom(program);
    chip8
}

#[test]
fn defaults_of_the_driver() {
    assert_eq!(FRAME_RATE, 60);
    assert_eq!(TICK_PER_FRAME, 8);
    assert_eq!(KEYPAD_RESET_COUNTDOWN_INIT, 10);
}

#[test]
fn keyboard_block_maps_to_the_keypad() {
    let rows = [
        ("1234", [0x1, 0x2, 0x3, 0xC]),
        ("qwer", [0x4, 0x5, 0x6, 0xD]),
        ("asdf", [0x7, 0x8, 0x9, 0xE]),
        ("zxcv", [0xA, 0x0, 0xB, 0xF]),
    ];
    for (keys, codes) in rows {
        for (key, code) in keys.chars().zip(codes) {
            assert_eq!(pc_key_code_to_chip8_key_code(key), Some(code));
        }
    }
}

#[test]
fn every_entry_of_the_key_map_is_found() {
    let mut seen = [false; 16];
    for (key, code) in KEY_MAP {
        assert_eq!(pc_key_code_to_chip8_key_code(key), Some(code));
        seen[code] = true;
    }
    assert_eq!(seen, [true; 16]);
}

#[test]
fn other_characters_map_to_no_key() {
    for key in ['5', '0', 'Q', 'g', ' ', '\n', 'é'] {
        assert_eq!(pc_key_code_to_chip8_key_code(key), None);
    }
}

#[test]
fn press_and_release_reach_the_keypad() {
    let mut chip8 = machine_with(&[]);
    let mut countdown = 3;
    let press = InputEvent::Character('w', KeyEventKind::Press);
    assert!(!handle_input(&mut chip8, &mut countdown, true, press));
    assert!(chip8.keypad[0x5]);
    assert_eq!(countdown, 10);
    let repeat = InputEvent::Character('w', KeyEventKind::Repeat);
    assert!(!handle_input(&mut chip8, &mut countdown, true, repeat));
    assert!(chip8.keypad[0x5]);
    let release = InputEvent::Character('w', KeyEventKind::Release);
    assert!(!handle_input(&mut chip8, &mut countdown, true, release));
    assert_eq!(chip8.keypad, [false; 16]);
}

#[test]
fn release_of_the_captured_key_ends_the_wait() {
    let mut chip8 = machine_with(&[]);
    let mut countdown = 10;
    chip8.keypad[0x5] = true;
    chip8.keypad[0x6] = true;
    chip8.wait_for_key_release = Some(0x5);
    let other_up = InputEvent::Character('e', KeyEventKind::Release);
    handle_input(&mut chip8, &mut countdown, true, other_up);
    assert_eq!(chip8.wait_for_key_release, Some(0x5));
    let again_down = InputEvent::Character('w', KeyEventKind::Press);
    handle_input(&mut chip8, &mut countdown, true, again_down);
    assert_eq!(chip8.wait_for_key_release, Some(0x5));
    let captured_up = InputEvent::Character('w', KeyEventKind::Release);
    handle_input(&mut chip8, &mut countdown, true, captured_up);
    assert_eq!(chip8.wait_for_key_release, None);
}

#[test]
fn unmapped_keys_and_other_events_only_restart_the_countdown() {
    let mut chip8 = machine_with(&[]);
    chip8.keypad[1] = true;
    let mut countdown = 2;
    let unmapped = InputEvent::Character('p', KeyEventKind::Press);
    assert!(!handle_input(&mut chip8, &mut countdown, true, unmapped));
    assert_eq!(countdown, 10);
    countdown = 2;
    assert!(!handle_input(&mut chip8, &mut countdown, true, InputEvent::Other));
    assert_eq!(countdown, 10);
    assert!(chip8.keypad[1]);
}

#[test]
fn escape_asks_to_quit() {
    let mut chip8 = machine_with(&[]);
    let mut countdown = 4;
    assert!(handle_input(&mut chip8, &mut countdown, true, InputEvent::Escape));
    assert_eq!(countdown, 10);
}

#[test]
fn ten_idle_frames_release_every_key() {
    let mut chip8 = machine_with(&[]);
    chip8.keypad[3] = true;
    chip8.wait_for_key_release = Some(3);
    let mut countdown = KEYPAD_RESET_COUNTDOWN_INIT;
    for left in (1..10).rev() {
        assert!(!handle_input(&mut chip8, &mut countdown, true, InputEvent::Idle));
        assert_eq!(countdown, left);
        assert!(chip8.keypad[3]);
        assert_eq!(chip8.wait_for_key_release, Some(3));
    }
    assert!(!handle_input(&mut chip8, &mut countdown, true, InputEvent::Idle));
    assert_eq!(countdown, 10);
    assert_eq!(chip8.keypad, [false; 16]);
    assert_eq!(chip8.wait_for_key_release, None);
}

#[test]
fn idle_frames_do_nothing_where_the_reset_is_off() {
    let mut chip8 = machine_with(&[]);
    chip8.keypad[3] = true;
    let mut countdown = 1;
    for _ in 0..20 {
        assert!(!handle_input(&mut chip8, &mut countdown, false, InputEvent::Idle));
    }
    assert_eq!(countdown, 1);
    assert!(chip8.keypad[3]);
}

#[test]
fn frame_runs_the_ticks_then_the_timers() {
    // V0 = 5; delay = V0; sound = V0; then V1 += 1 for the rest.
    let mut chip8 = machine_with(&[
        0x60, 0x05, 0xF0, 0x15, 0xF0, 0x18, 0x71, 0x01, 0x71, 0x01, 0x71, 0x01, 0x71, 0x01, 0x71,
        0x01, 0x71, 0x01,
    ]);
    let signals = run_frame(&mut chip8, 8);
    assert_eq!(signals, Ok(FrameSignals { beep: true, redraw: false }));
    assert_eq!(chip8.program_counter, 0x210);
    assert_eq!(chip8.register_v[1], 5);
    assert_eq!((chip8.delay_timer, chip8.sound_timer), (4, 4));
}

#[test]
fn frame_hands_the_dirty_flag_over() {
    let mut chip8 = machine_with(&[0x00, 0xE0, 0x12, 0x02]);
    assert_eq!(run_frame(&mut chip8, 8), Ok(FrameSignals { beep: false, redraw: true }));
    assert!(!chip8.draw_flag);
    assert_eq!(run_frame(&mut chip8, 8), Ok(FrameSignals { beep: false, redraw: false }));
}

#[test]
fn beep_lasts_while_the_sound_timer_runs() {
    let mut chip8 = machine_with(&[0x12, 0x00]);
    chip8.sound_timer = 2;
    assert_eq!(run_frame(&mut chip8, 8).map(|signals| signals.beep), Ok(true));
    assert_eq!(run_frame(&mut chip8, 8).map(|signals| signals.beep), Ok(false));
}

#[test]
fn frame_stops_ticking_once_a_key_is_captured() {
    let mut chip8 = machine_with(&[0x61, 0x01, 0xF0, 0x0A, 0x61, 0x02]);
    chip8.keypad[7] = true;
    chip8.delay_timer = 9;
    assert_eq!(run_frame(&mut chip8, 8), Ok(FrameSignals { beep: false, redraw: false }));
    assert_eq!(chip8.wait_for_key_release, Some(7));
    assert_eq!(chip8.program_counter, 0x204);
    assert_eq!(chip8.register_v[1], 1);
    assert_eq!(chip8.delay_timer, 8);
    assert_eq!(run_frame(&mut chip8, 8), Ok(FrameSignals { beep: false, redraw: false }));
    assert_eq!(chip8.program_counter, 0x204);
    assert_eq!(chip8.delay_timer, 7);
}

#[test]
fn frame_ends_at_the_first_error() {
    let mut chip8 = machine_with(&[0x61, 0x01, 0xFF, 0xFF, 0x61, 0x02]);
    chip8.delay_timer = 9;
    chip8.draw_flag = true;
    assert_eq!(run_frame(&mut chip8, 8), Err(InstructionError::UnknownOpcode(0xFFFF)));
    assert_eq!(chip8.program_counter, 0x204);
    assert_eq!(chip8.register_v[1], 1);
    assert_eq!(chip8.delay_timer, 9);
    assert!(chip8.draw_flag);
}

#[test]
fn frame_of_no_ticks_still_runs_the_timers() {
    let mut chip8 = machine_with(&[0x61, 0x01]);
    chip8.delay_timer = 1;
    assert_eq!(run_frame(&mut chip8, 0), Ok(FrameSignals { beep: false, redraw: false }));
    assert_eq!(chip8.program_counter, 0x200);
    assert_eq!(chip8.delay_timer, 0);
}

#[test]
fn lit_pixels_become_cells_two_columns_wide() {
    let mut screen = [false; SCREEN_SIZE];
    assert_eq!(lit_cells(&screen), vec![]);
    screen[0] = true;
    screen[63] = true;
    screen[64 + 5] = true;
    screen[31 * 64 + 63] = true;
    assert_eq!(
        lit_cells(&screen),
        vec![
            Cells { x: 0, y: 0, width: 2, height: 1 },
            Cells { x: 126, y: 0, width: 2, height: 1 },
            Cells { x: 10, y: 1, width: 2, height: 1 },
            Cells { x: 126, y: 31, width: 2, height: 1 },
        ]
    );
    assert_eq!(lit_cells(&[true; SCREEN_SIZE]).len(), 2048);
}
