//! The mathematical model of the machine: what a `Chip8` is when seen as a
//! value, without its random source.
use vstd::prelude::*;
use crate::chip8::FONTSET;

verus! {

/// The state of the machine as plain mathematical data. Every contract of
/// the executable machine is stated over this view.
pub struct MachineState {
    /// The 4096 bytes of memory.
    pub memory: Seq<u8>,
    /// Address of the next instruction to fetch.
    pub program_counter: u16,
    /// The registers `V0..VF`; `VF` doubles as the flag register.
    pub register_v: Seq<u8>,
    /// The index register `I`.
    pub register_i: u16,
    /// Counts down to zero at the frame rate; programs read and write it.
    pub delay_timer: u8,
    /// Counts down to zero at the frame rate; the beep sounds while it runs.
    pub sound_timer: u8,
    /// The sixteen return addresses.
    pub stack: Seq<u16>,
    /// How many entries of `stack` are in use.
    pub stack_pointer: u8,
    /// Which of the sixteen keys are held down.
    pub keypad: Seq<bool>,
    /// The 64 by 32 pixels, row by row.
    pub screen: Seq<bool>,
    /// Set when the screen was written and not yet rendered.
    pub draw_flag: bool,
    /// The key whose release the machine is waiting for, if any.
    pub wait_for_key_release: Option<usize>,
}

impl MachineState {
    /// The parts have their fixed sizes and the stack is not over-full.
    pub open spec fn wf(self) -> bool {
        &&& self.memory.len() == 4096
        &&& self.register_v.len() == 16
        &&& self.stack.len() == 16
        &&& self.keypad.len() == 16
        &&& self.screen.len() == 2048
        &&& self.stack_pointer <= 16
    }

    /// The machine at power-on: all zero, except that memory starts with
    /// the font table and the program counter stands at `0x200`.
    pub open spec fn power_on() -> MachineState {
        MachineState {
            memory: overwritten(Seq::new(4096, |i: int| 0u8), 0, FONTSET@),
            program_counter: 0x200,
            register_v: Seq::new(16, |i: int| 0u8),
            register_i: 0,
            delay_timer: 0,
            sound_timer: 0,
            stack: Seq::new(16, |i: int| 0u16),
            stack_pointer: 0,
            keypad: Seq::new(16, |i: int| false),
            screen: Seq::new(2048, |i: int| false),
            draw_flag: false,
            wait_for_key_release: None,
        }
    }

    /// The machine is idle: it is not waiting for a key to be released.
    pub open spec fn idle(self) -> bool {
        self.wait_for_key_release is None
    }

    /// Key `code` is held down. A code that names no key is never pressed.
    pub open spec fn key_pressed(self, code: u8) -> bool {
        code < 16 && self.keypad[code as int]
    }
}

/// `bytes` written over `memory` from address `start` on.
pub open spec fn overwritten(memory: Seq<u8>, start: int, bytes: Seq<u8>) -> Seq<u8> {
    Seq::new(
        memory.len(),
        |a: int|
            if start <= a < start + bytes.len() {
                bytes[a - start]
            } else {
                memory[a]
            },
    )
}

} // verus!
