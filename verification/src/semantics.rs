//! What the machine does, as functions on the model: one function from a
//! state and an instruction to the next state, one for the fetch, one for a
//! whole tick.
use vstd::prelude::*;
use crate::display::{sprite_at, Sprite};
use crate::instruction::{decode, Instruction, InstructionError};
use crate::model::MachineState;
use crate::rng::RandomSource;

verus! {

/// `value` reduced to eight bits.
pub open spec fn wrap8(value: int) -> u8 {
    (value % 0x100) as u8
}

/// `value` reduced to sixteen bits.
pub open spec fn wrap16(value: int) -> u16 {
    (value % 0x1_0000) as u16
}

/// Reducing a sum or a difference of two bytes to eight bits adds or takes
/// away at most one 256.
pub proof fn lemma_wrap8(a: u8, b: u8)
    ensures
        wrap8(a + b) == (if a + b > 0xFF {
            a + b - 0x100
        } else {
            a + b
        }),
        wrap8(a - b) == (if a < b {
            a - b + 0x100
        } else {
            a - b
        }),
{
}

/// Reducing the sum or the difference of a 16-bit value and a byte to
/// sixteen bits adds or takes away at most one 65536.
pub proof fn lemma_wrap16(a: u16, b: u8)
    ensures
        wrap16(a + b) == (if a + b > 0xFFFF {
            a + b - 0x1_0000
        } else {
            a + b
        }),
        wrap16(a - b) == (if a < b {
            a - b + 0x1_0000
        } else {
            a - b
        }),
{
}

/// The flag register's value for a condition.
pub open spec fn flag(condition: bool) -> u8 {
    if condition {
        1
    } else {
        0
    }
}

/// The lowest key code at or above `from` whose key is held down.
pub open spec fn lowest_pressed_from(keypad: Seq<bool>, from: int) -> Option<usize>
    decreases keypad.len() - from,
{
    if from < 0 || from >= keypad.len() {
        None
    } else if keypad[from] {
        Some(from as usize)
    } else {
        lowest_pressed_from(keypad, from + 1)
    }
}

/// The lowest key code whose key is held down.
pub open spec fn lowest_pressed(keypad: Seq<bool>) -> Option<usize> {
    lowest_pressed_from(keypad, 0)
}

/// The registers `V0..=Vx` stored in `memory` from address `base` on.
pub open spec fn registers_stored(memory: Seq<u8>, registers: Seq<u8>, base: int, x: int) -> Seq<
    u8,
> {
    Seq::new(
        memory.len(),
        |a: int|
            if base <= a <= base + x {
                registers[a - base]
            } else {
                memory[a]
            },
    )
}

/// The registers `V0..=Vx` loaded from `memory` from address `base` on.
pub open spec fn registers_loaded(memory: Seq<u8>, registers: Seq<u8>, base: int, x: int) -> Seq<
    u8,
> {
    Seq::new(
        registers.len(),
        |r: int|
            if r <= x {
                memory[base + r]
            } else {
                registers[r]
            },
    )
}

/// The sprite that the draw instruction with operands `x`, `y`, `n` draws in
/// state `s`: only the start point wraps round the screen.
pub open spec fn sprite_of(s: MachineState, x: u8, y: u8, n: u8) -> Sprite {
    sprite_at(s.memory, s.register_i, n, s.register_v[x as int] % 64, s.register_v[y as int] % 32)
}

impl MachineState {
    /// The state with the program counter moved past one more instruction
    /// if `condition` holds.
    pub open spec fn skip_if(self, condition: bool) -> MachineState {
        if condition {
            MachineState { program_counter: wrap16(self.program_counter + 2), ..self }
        } else {
            self
        }
    }

    /// The state with `value` in register `x`.
    pub open spec fn with_register(self, x: u8, value: u8) -> MachineState {
        MachineState { register_v: self.register_v.update(x as int, value), ..self }
    }

    /// The state with `value` in register `x` and then `flag` in the flag
    /// register: where `x` is the flag register itself, the flag stays.
    pub open spec fn with_result(self, x: u8, value: u8, flag: u8) -> MachineState {
        MachineState {
            register_v: self.register_v.update(x as int, value).update(0xF, flag),
            ..self
        }
    }

    /// The state after a return.
    pub open spec fn returned(self) -> Result<MachineState, InstructionError> {
        if self.stack_pointer == 0 {
            Err(InstructionError::StackUnderflow)
        } else {
            Ok(
                MachineState {
                    stack_pointer: (self.stack_pointer - 1) as u8,
                    program_counter: self.stack[self.stack_pointer - 1],
                    ..self
                },
            )
        }
    }

    /// The state after a call of the subroutine at `target`.
    pub open spec fn called(self, target: u16) -> Result<MachineState, InstructionError> {
        if self.stack_pointer >= 16 {
            Err(InstructionError::StackOverflow)
        } else {
            Ok(
                MachineState {
                    stack: self.stack.update(self.stack_pointer as int, self.program_counter),
                    stack_pointer: (self.stack_pointer + 1) as u8,
                    program_counter: target,
                    ..self
                },
            )
        }
    }

    /// The state after the sprite of `n` rows was drawn at the point that
    /// registers `x` and `y` name. Rows clipped at the bottom are not read.
    pub open spec fn sprite_drawn(self, x: u8, y: u8, n: u8) -> Result<
        MachineState,
        InstructionError,
    > {
        let sprite = sprite_of(self, x, y, n);
        if !sprite.fits_memory() {
            Err(InstructionError::AddressOutOfRange)
        } else {
            Ok(
                MachineState {
                    screen: sprite.drawn(self.screen),
                    register_v: self.register_v.update(0xF, flag(sprite.collides(self.screen))),
                    draw_flag: true,
                    ..self
                },
            )
        }
    }

    /// The state after the wait-for-key instruction with operand `x`: with
    /// no key down the instruction is set up to run again, else the lowest
    /// key that is down is captured.
    pub open spec fn key_awaited(self, x: u8) -> MachineState {
        match lowest_pressed(self.keypad) {
            None => MachineState { program_counter: wrap16(self.program_counter - 2), ..self },
            Some(key) => MachineState {
                wait_for_key_release: Some(key),
                register_v: self.register_v.update(x as int, key as u8),
                ..self
            },
        }
    }

    /// The state after the three decimal digits of `Vx` were stored at `I`.
    pub open spec fn digits_stored(self, x: u8) -> Result<MachineState, InstructionError> {
        let value = self.register_v[x as int];
        let base = self.register_i as int;
        if base + 2 >= 4096 {
            Err(InstructionError::AddressOutOfRange)
        } else {
            Ok(
                MachineState {
                    memory: self.memory.update(base, value / 100).update(
                        base + 1,
                        value / 10 % 10,
                    ).update(base + 2, value % 10),
                    ..self
                },
            )
        }
    }

    /// The state after `V0..=Vx` were stored at `I`.
    pub open spec fn registers_dumped(self, x: u8) -> Result<MachineState, InstructionError> {
        let base = self.register_i as int;
        if base + x >= 4096 {
            Err(InstructionError::AddressOutOfRange)
        } else {
            Ok(
                MachineState {
                    memory: registers_stored(self.memory, self.register_v, base, x as int),
                    register_i: (base + x + 1) as u16,
                    ..self
                },
            )
        }
    }

    /// The state after `V0..=Vx` were loaded from `I`.
    pub open spec fn registers_filled(self, x: u8) -> Result<MachineState, InstructionError> {
        let base = self.register_i as int;
        if base + x >= 4096 {
            Err(InstructionError::AddressOutOfRange)
        } else {
            Ok(
                MachineState {
                    register_v: registers_loaded(self.memory, self.register_v, base, x as int),
                    register_i: (base + x + 1) as u16,
                    ..self
                },
            )
        }
    }
}

/// How a step that should lead to `result` ends for the caller.
pub open spec fn outcome_of(result: Result<MachineState, InstructionError>) -> Result<
    (),
    InstructionError,
> {
    match result {
        Ok(_) => Ok(()),
        Err(error) => Err(error),
    }
}

/// The state after a step that should lead from `before` to `result`: a
/// step that fails changes nothing.
pub open spec fn state_after(
    before: MachineState,
    result: Result<MachineState, InstructionError>,
) -> MachineState {
    match result {
        Ok(state) => state,
        Err(_) => before,
    }
}

/// The state that `instruction` leaves behind when it is executed in state
/// `s`, or the error that it fails with. `random` is the value that the
/// random source yields if the instruction draws one.
pub open spec fn execute(s: MachineState, instruction: Instruction, random: u16) -> Result<
    MachineState,
    InstructionError,
> {
    let v = s.register_v;
    match instruction {
        Instruction::Ins00E0 => Ok(
            MachineState { screen: Seq::new(2048, |i: int| false), draw_flag: true, ..s },
        ),
        Instruction::Ins00EE => s.returned(),
        Instruction::Ins1NNN(nnn) => Ok(MachineState { program_counter: nnn, ..s }),
        Instruction::Ins2NNN(nnn) => s.called(nnn),
        Instruction::Ins3XNN(x, nn) => Ok(s.skip_if(v[x as int] == nn)),
        Instruction::Ins4XNN(x, nn) => Ok(s.skip_if(v[x as int] != nn)),
        Instruction::Ins5XY0(x, y) => Ok(s.skip_if(v[x as int] == v[y as int])),
        Instruction::Ins6XNN(x, nn) => Ok(s.with_register(x, nn)),
        Instruction::Ins7XNN(x, nn) => Ok(s.with_register(x, wrap8(v[x as int] + nn))),
        Instruction::Ins8XY0(x, y) => Ok(s.with_register(x, v[y as int])),
        Instruction::Ins8XY1(x, y) => Ok(s.with_result(x, v[x as int] | v[y as int], 0)),
        Instruction::Ins8XY2(x, y) => Ok(s.with_result(x, v[x as int] & v[y as int], 0)),
        Instruction::Ins8XY3(x, y) => Ok(s.with_result(x, v[x as int] ^ v[y as int], 0)),
        Instruction::Ins8XY4(x, y) => Ok(
            s.with_result(
                x,
                wrap8(v[x as int] + v[y as int]),
                flag(v[x as int] + v[y as int] > 0xFF),
            ),
        ),
        Instruction::Ins8XY5(x, y) => Ok(
            s.with_result(x, wrap8(v[x as int] - v[y as int]), flag(v[x as int] >= v[y as int])),
        ),
        Instruction::Ins8XY6(x, y) => Ok(s.with_result(x, v[y as int] / 2, v[y as int] % 2)),
        Instruction::Ins8XY7(x, y) => Ok(
            s.with_result(x, wrap8(v[y as int] - v[x as int]), flag(v[y as int] >= v[x as int])),
        ),
        Instruction::Ins8XYE(x, y) => Ok(
            s.with_result(x, wrap8(v[y as int] * 2), v[y as int] / 128),
        ),
        Instruction::Ins9XY0(x, y) => Ok(s.skip_if(v[x as int] != v[y as int])),
        Instruction::InsANNN(nnn) => Ok(MachineState { register_i: nnn, ..s }),
        Instruction::InsBNNN(nnn) => Ok(
            MachineState { program_counter: wrap16(nnn + v[0]), ..s },
        ),
        Instruction::InsCXNN(x, nn) => Ok(s.with_register(x, wrap8(random as int) & nn)),
        Instruction::InsDXYN(x, y, n) => s.sprite_drawn(x, y, n),
        Instruction::InsEX9E(x) => Ok(s.skip_if(s.key_pressed(v[x as int]))),
        Instruction::InsEXA1(x) => Ok(s.skip_if(!s.key_pressed(v[x as int]))),
        Instruction::InsFX07(x) => Ok(s.with_register(x, s.delay_timer)),
        Instruction::InsFX0A(x) => Ok(s.key_awaited(x)),
        Instruction::InsFX15(x) => Ok(MachineState { delay_timer: v[x as int], ..s }),
        Instruction::InsFX18(x) => Ok(MachineState { sound_timer: v[x as int], ..s }),
        Instruction::InsFX1E(x) => Ok(
            MachineState { register_i: wrap16(s.register_i + v[x as int]), ..s },
        ),
        Instruction::InsFX29(x) => Ok(MachineState { register_i: (v[x as int] * 5) as u16, ..s }),
        Instruction::InsFX33(x) => s.digits_stored(x),
        Instruction::InsFX55(x) => s.registers_dumped(x),
        Instruction::InsFX65(x) => s.registers_filled(x),
    }
}

/// The instruction draws from the random source.
pub open spec fn draws_random(instruction: Instruction) -> bool {
    instruction is InsCXNN
}

/// The opcode that stands in `memory` at `address`, high byte first.
pub open spec fn opcode_at(memory: Seq<u8>, address: int) -> u16 {
    (memory[address] * 0x100 + memory[address + 1]) as u16
}

/// The fetch: the opcode at the program counter and the state with the
/// counter moved past it, or the error if the opcode does not lie in memory.
pub open spec fn fetch(s: MachineState) -> Result<(u16, MachineState), InstructionError> {
    if s.program_counter + 1 >= 4096 {
        Err(InstructionError::AddressOutOfRange)
    } else {
        Ok(
            (
                opcode_at(s.memory, s.program_counter as int),
                MachineState { program_counter: (s.program_counter + 2) as u16, ..s },
            ),
        )
    }
}

/// The instruction that a tick in state `s` executes, if it gets that far.
pub open spec fn fetched_instruction(s: MachineState) -> Option<Instruction> {
    if !s.idle() {
        None
    } else {
        match fetch(s) {
            Err(_) => None,
            Ok((opcode, _)) => match decode(opcode) {
                Err(_) => None,
                Ok(instruction) => Some(instruction),
            },
        }
    }
}

/// One tick: the state it leaves behind and how it ends. A machine that
/// waits for a key to be released does nothing. Otherwise the tick fetches,
/// moves the program counter on, decodes and executes; a failed fetch leaves
/// the state as it was, a failure after the fetch leaves the state that the
/// fetch left.
pub open spec fn tick(s: MachineState, random: u16) -> (
    MachineState,
    Result<(), InstructionError>,
) {
    if !s.idle() {
        (s, Ok(()))
    } else {
        match fetch(s) {
            Err(e) => (s, Err(e)),
            Ok((opcode, fetched)) => match decode(opcode) {
                Err(e) => (fetched, Err(e)),
                Ok(instruction) => {
                    let result = execute(fetched, instruction, random);
                    (state_after(fetched, result), outcome_of(result))
                },
            },
        }
    }
}

/// The random source after a tick in state `s`: it has moved on by one
/// value if the tick executed the random instruction.
pub open spec fn rng_after_tick<R: RandomSource>(s: MachineState, rng: R) -> R {
    if fetched_instruction(s) matches Some(instruction) && draws_random(instruction) {
        rng.advanced()
    } else {
        rng
    }
}

/// Up to `count` ticks in a row: the run ends early when the machine starts
/// to wait for a key to be released, and at the first tick that fails.
pub open spec fn run_ticks<R: RandomSource>(s: MachineState, rng: R, count: nat) -> (
    MachineState,
    R,
    Result<(), InstructionError>,
)
    decreases count,
{
    if count == 0 || !s.idle() {
        (s, rng, Ok(()))
    } else {
        let (next, outcome) = tick(s, rng.upcoming());
        if outcome is Err {
            (next, rng_after_tick(s, rng), outcome)
        } else {
            run_ticks(next, rng_after_tick(s, rng), (count - 1) as nat)
        }
    }
}

/// The state with both timers counted down by one, stopping at zero.
pub open spec fn timers_ticked(s: MachineState) -> MachineState {
    MachineState {
        delay_timer: if s.delay_timer == 0 {
            0
        } else {
            (s.delay_timer - 1) as u8
        },
        sound_timer: if s.sound_timer == 0 {
            0
        } else {
            (s.sound_timer - 1) as u8
        },
        ..s
    }
}

/// The state with key `code` held down.
pub open spec fn key_down(s: MachineState, code: int) -> MachineState {
    MachineState { keypad: s.keypad.update(code, true), ..s }
}

/// The state with key `code` let go: if the machine was waiting for just
/// this key, it is idle again.
pub open spec fn key_up(s: MachineState, code: int) -> MachineState {
    MachineState {
        keypad: s.keypad.update(code, false),
        wait_for_key_release: if s.wait_for_key_release == Some(code as usize) {
            None
        } else {
            s.wait_for_key_release
        },
        ..s
    }
}

/// The state with every key let go and the machine idle.
pub open spec fn all_keys_up(s: MachineState) -> MachineState {
    MachineState { keypad: Seq::new(16, |i: int| false), wait_for_key_release: None, ..s }
}

} // verus!
