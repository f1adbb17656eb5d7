//! What a front end needs around the machine: the keyboard layout, how key
//! events and idle time act on the keypad, how one video frame is run, and
//! which cells of a terminal a screen lights.
use vstd::prelude::*;
use crate::chip8::{Chip8, KEYPAD_SIZE, SCREEN_SIZE, SCREEN_WIDTH};
use crate::instruction::InstructionError;
use crate::model::MachineState;
use crate::rng::{LinearCongruentialGenerator, RandomSource};
use crate::semantics::{all_keys_up, key_down, key_up, run_ticks, timers_ticked};

verus! {

/// Video frames per second.
pub const FRAME_RATE: u64 = 60;

/// Frames without input after which every key counts as let go.
pub const KEYPAD_RESET_COUNTDOWN_INIT: u64 = 10;

/// Instructions run per video frame.
pub const TICK_PER_FRAME: u8 = 8;

/// The keyboard layout: the four by four block `1234 / qwer / asdf / zxcv`
/// stands for the keypad `123C / 456D / 789E / A0BF`.
pub const KEY_MAP: [(char, usize); 16] = [
    ('1', 0x1),
    ('2', 0x2),
    ('3', 0x3),
    ('4', 0xC),
    ('q', 0x4),
    ('w', 0x5),
    ('e', 0x6),
    ('r', 0xD),
    ('a', 0x7),
    ('s', 0x8),
    ('d', 0x9),
    ('f', 0xE),
    ('z', 0xA),
    ('x', 0x0),
    ('c', 0xB),
    ('v', 0xF),
];

/// The key code that the character `key` of the keyboard stands for.
pub open spec fn key_code_of(key: char) -> Option<usize> {
    if key == '1' {
        Some(0x1)
    } else if key == '2' {
        Some(0x2)
    } else if key == '3' {
        Some(0x3)
    } else if key == '4' {
        Some(0xC)
    } else if key == 'q' {
        Some(0x4)
    } else if key == 'w' {
        Some(0x5)
    } else if key == 'e' {
        Some(0x6)
    } else if key == 'r' {
        Some(0xD)
    } else if key == 'a' {
        Some(0x7)
    } else if key == 's' {
        Some(0x8)
    } else if key == 'd' {
        Some(0x9)
    } else if key == 'f' {
        Some(0xE)
    } else if key == 'z' {
        Some(0xA)
    } else if key == 'x' {
        Some(0x0)
    } else if key == 'c' {
        Some(0xB)
    } else if key == 'v' {
        Some(0xF)
    } else {
        None
    }
}

/// Looks the character of a key up in the keyboard layout.
pub fn pc_key_code_to_chip8_key_code(key: char) -> (code: Option<usize>)
    ensures
        code == key_code_of(key),
        code matches Some(c) ==> c < KEYPAD_SIZE,
{
    let mut index: usize = 0;
    while index < 16
        invariant
            index <= 16,
            forall|i: int| 0 <= i < index ==> KEY_MAP@[i].0 != key,
        decreases 16 - index,
    {
        let (character, code) = KEY_MAP[index];
        if character == key {
            return Some(code);
        }
        index += 1;
    }
    None
}

/// What happened to a key.
#[derive(Clone, Copy, Debug, PartialEq, Eq)]
pub enum KeyEventKind {
    Press,
    Release,
    Repeat,
}

/// What the front end saw within one frame.
#[derive(Clone, Copy, Debug, PartialEq, Eq)]
pub enum InputEvent {
    /// Nothing arrived before the frame's time was up.
    Idle,
    /// The escape key, in any kind of event.
    Escape,
    /// A key that produces a character.
    Character(char, KeyEventKind),
    /// Anything else: another key, the mouse, a resize.
    Other,
}

/// The machine and the idle countdown after `event` was handled. Any event
/// restarts the countdown; a mapped key acts on the keypad; an idle frame
/// counts down, and when the count runs out every key is let go, if
/// `idle_reset` is on.
pub open spec fn input_handled(
    s: MachineState,
    countdown: u64,
    idle_reset: bool,
    event: InputEvent,
) -> (MachineState, u64) {
    match event {
        InputEvent::Idle => if !idle_reset {
            (s, countdown)
        } else if countdown <= 1 {
            (all_keys_up(s), KEYPAD_RESET_COUNTDOWN_INIT)
        } else {
            (s, (countdown - 1) as u64)
        },
        InputEvent::Character(key, kind) => (
            match (key_code_of(key), kind) {
                (Some(code), KeyEventKind::Press) => key_down(s, code as int),
                (Some(code), KeyEventKind::Release) => key_up(s, code as int),
                _ => s,
            },
            KEYPAD_RESET_COUNTDOWN_INIT,
        ),
        _ => (s, KEYPAD_RESET_COUNTDOWN_INIT),
    }
}

/// Applies what the front end saw in one frame to the keypad and to the
/// idle countdown, and tells whether the user asked to quit.
pub fn handle_input<R: RandomSource>(
    chip8: &mut Chip8<R>,
    countdown: &mut u64,
    idle_reset: bool,
    event: InputEvent,
) -> (quit: bool)
    ensures
        quit == (event is Escape),
        (final(chip8)@, *final(countdown)) == input_handled(
            old(chip8)@,
            *old(countdown),
            idle_reset,
            event,
        ),
        final(chip8).rng == old(chip8).rng,
{
    match event {
        InputEvent::Idle => {
            if idle_reset {
                if *countdown <= 1 {
                    *countdown = KEYPAD_RESET_COUNTDOWN_INIT;
                    chip8.release_all_keys();
                } else {
                    *countdown -= 1;
                }
            }
            false
        },
        InputEvent::Escape => {
            *countdown = KEYPAD_RESET_COUNTDOWN_INIT;
            true
        },
        InputEvent::Character(key, kind) => {
            *countdown = KEYPAD_RESET_COUNTDOWN_INIT;
            if let Some(chip8_key_code) = pc_key_code_to_chip8_key_code(key) {
                match kind {
                    KeyEventKind::Press => chip8.press_key(chip8_key_code),
                    KeyEventKind::Release => chip8.release_key(chip8_key_code),
                    KeyEventKind::Repeat => {},
                }
            }
            false
        },
        InputEvent::Other => {
            *countdown = KEYPAD_RESET_COUNTDOWN_INIT;
            false
        },
    }
}

/// What the front end has to do after a frame.
#[derive(Clone, Copy, Debug, PartialEq, Eq)]
pub struct FrameSignals {
    /// The sound timer is running: sound the beep.
    pub beep: bool,
    /// The screen changed since it was last rendered: render it.
    pub redraw: bool,
}

/// The machine after one frame of `ticks` instructions, and what the frame
/// asks of the front end. The timers count down once and the dirty flag is
/// handed over, unless a tick failed: then the frame ends there.
pub open spec fn frame_run<R: RandomSource>(s: MachineState, rng: R, ticks: u8) -> (
    MachineState,
    R,
    Result<FrameSignals, InstructionError>,
) {
    let (stopped, rng_left, outcome) = run_ticks(s, rng, ticks as nat);
    match outcome {
        Err(error) => (stopped, rng_left, Err(error)),
        Ok(_) => {
            let timed = timers_ticked(stopped);
            (
                MachineState { draw_flag: false, ..timed },
                rng_left,
                Ok(FrameSignals { beep: timed.sound_timer > 0, redraw: timed.draw_flag }),
            )
        },
    }
}

/// Runs one video frame: up to `ticks` instructions, then one step of the
/// timers, then the hand-over of the dirty flag.
pub fn run_frame<R: RandomSource>(chip8: &mut Chip8<R>, ticks: u8) -> (signals: Result<
    FrameSignals,
    InstructionError,
>)
    requires
        old(chip8).wf(),
    ensures
        (final(chip8)@, final(chip8).rng, signals) == frame_run(
            old(chip8)@,
            old(chip8).rng,
            ticks,
        ),
        final(chip8).wf(),
{
    let mut done: u8 = 0;
    while done < ticks && chip8.wait_for_key_release.is_none()
        invariant
            done <= ticks,
            chip8.wf(),
            run_ticks(old(chip8)@, old(chip8).rng, ticks as nat) == run_ticks(
                chip8@,
                chip8.rng,
                (ticks - done) as nat,
            ),
        decreases ticks - done,
    {
        chip8.tick()?;
        done += 1;
    }
    chip8.tick_timer();
    let beep = chip8.sound_timer > 0;
    let redraw = chip8.draw_flag;
    chip8.draw_flag = false;
    Ok(FrameSignals { beep, redraw })
}

/// A rectangle of character cells of a terminal.
#[derive(Clone, Copy, Debug, PartialEq, Eq)]
pub struct Cells {
    pub x: u16,
    pub y: u16,
    pub width: u16,
    pub height: u16,
}

/// The cells that show the pixel with index `pixel`: a pixel is two columns
/// wide and one row high.
pub open spec fn cells_of_pixel(pixel: int) -> Cells {
    Cells { x: (pixel % 64 * 2) as u16, y: (pixel / 64) as u16, width: 2, height: 1 }
}

/// The cells of the lit pixels among the first `count` pixels of `screen`,
/// in the order of the pixels.
pub open spec fn lit_cells_within(screen: Seq<bool>, count: int) -> Seq<Cells>
    decreases count,
{
    if count <= 0 {
        Seq::empty()
    } else if screen[count - 1] {
        lit_cells_within(screen, count - 1).push(cells_of_pixel(count - 1))
    } else {
        lit_cells_within(screen, count - 1)
    }
}

/// The cells to fill in order to show `screen`: those of its lit pixels,
/// row by row.
pub fn lit_cells(screen: &[bool; SCREEN_SIZE]) -> (cells: Vec<Cells>)
    ensures
        cells@ == lit_cells_within(screen@, SCREEN_SIZE as int),
{
    let mut cells: Vec<Cells> = Vec::new();
    let mut index: usize = 0;
    while index < SCREEN_SIZE
        invariant
            index <= SCREEN_SIZE,
            cells@ == lit_cells_within(screen@, index as int),
        decreases SCREEN_SIZE - index,
    {
        if screen[index] {
            let x = (index % SCREEN_WIDTH) as u16;
            let y = (index / SCREEN_WIDTH) as u16;
            cells.push(Cells { x: x * 2, y, width: 2, height: 1 });
        }
        index += 1;
    }
    cells
}

/// A generator seeded from a time in milliseconds: the seed is the time
/// reduced to sixteen bits.
pub fn generator_from_millis(millis: u128) -> (generator: LinearCongruentialGenerator)
    ensures
        generator.seed == millis % 0x1_0000,
{
    assert(millis as u16 == millis % 0x1_0000) by (bit_vector);
    LinearCongruentialGenerator { seed: #[verifier::truncate] (millis as u16) }
}

} // verus!
