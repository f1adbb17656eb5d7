//! The machine itself: its state, how it is set up, and the
//! fetch-decode-execute engine that drives it.
use vstd::prelude::*;
use crate::display::draw_sprite;
use crate::instruction::{Instruction, InstructionError};
use crate::model::{overwritten, MachineState};
use crate::rng::RandomSource;
use crate::semantics::{
    all_keys_up, draws_random, execute, fetch, key_down, key_up, lemma_wrap16, lemma_wrap8,
    lowest_pressed, lowest_pressed_from, outcome_of, registers_loaded, registers_stored,
    rng_after_tick, state_after, tick, timers_ticked,
};

verus! {

/// Bytes of memory.
pub const MEMORY_SIZE: usize = 4096;

/// Address at which a program is loaded and starts to run.
pub const PROGRAM_START: u16 = 0x200;

/// Number of the registers `V0..VF`.
pub const NUM_REGISTERS: usize = 16;

/// Address of the font table.
pub const FONTSET_START: usize = 0;

/// Bytes of the font table.
pub const FONTSET_SIZE: usize = 80;

/// Return addresses that the stack holds.
pub const STACK_SIZE: usize = 16;

/// Keys of the keypad.
pub const KEYPAD_SIZE: usize = 16;

/// Pixels in a row of the screen.
pub const SCREEN_WIDTH: usize = 64;

/// Rows of the screen.
pub const SCREEN_HEIGHT: usize = 32;

/// Number of pixels of the screen.
pub const SCREEN_SIZE: usize = 2048;

/// The glyphs of the hexadecimal digits `0` to `F`, five bytes each; the
/// high nibble of a byte is one row of four pixels.
pub const FONTSET: [u8; FONTSET_SIZE] = [
    0xF0, 0x90, 0x90, 0x90, 0xF0, // 0
    0x20, 0x60, 0x20, 0x20, 0x70, // 1
    0xF0, 0x10, 0xF0, 0x80, 0xF0, // 2
    0xF0, 0x10, 0xF0, 0x10, 0xF0, // 3
    0x90, 0x90, 0xF0, 0x10, 0x10, // 4
    0xF0, 0x80, 0xF0, 0x10, 0xF0, // 5
    0xF0, 0x80, 0xF0, 0x90, 0xF0, // 6
    0xF0, 0x10, 0x20, 0x40, 0x40, // 7
    0xF0, 0x90, 0xF0, 0x90, 0xF0, // 8
    0xF0, 0x90, 0xF0, 0x10, 0xF0, // 9
    0xF0, 0x90, 0xF0, 0x90, 0x90, // A
    0xE0, 0x90, 0xE0, 0x90, 0xE0, // B
    0xF0, 0x80, 0x80, 0x80, 0xF0, // C
    0xE0, 0x90, 0x90, 0x90, 0xE0, // D
    0xF0, 0x80, 0xF0, 0x80, 0xF0, // E
    0xF0, 0x80, 0xF0, 0x80, 0x80, // F
];

/// The virtual machine, with the random source `R` that its random
/// instruction draws from. The fields are open: a front end writes the
/// keypad and clears `draw_flag`, and a test sets up any state it likes.
/// What each field means is said at the model, `MachineState`.
pub struct Chip8<R: RandomSource> {
    pub memory: [u8; MEMORY_SIZE],
    pub program_counter: u16,
    pub register_v: [u8; NUM_REGISTERS],
    pub register_i: u16,
    pub delay_timer: u8,
    pub sound_timer: u8,
    pub stack: [u16; STACK_SIZE],
    pub stack_pointer: u8,
    pub keypad: [bool; KEYPAD_SIZE],
    pub screen: [bool; SCREEN_SIZE],
    pub draw_flag: bool,
    pub rng: R,
    pub wait_for_key_release: Option<usize>,
}

impl<R: RandomSource> View for Chip8<R> {
    type V = MachineState;

    open spec fn view(&self) -> MachineState {
        MachineState {
            memory: self.memory@,
            program_counter: self.program_counter,
            register_v: self.register_v@,
            register_i: self.register_i,
            delay_timer: self.delay_timer,
            sound_timer: self.sound_timer,
            stack: self.stack@,
            stack_pointer: self.stack_pointer,
            keypad: self.keypad@,
            screen: self.screen@,
            draw_flag: self.draw_flag,
            wait_for_key_release: self.wait_for_key_release,
        }
    }
}

impl<R: RandomSource> Chip8<R> {
    /// The machine's state is well-formed; of a `Chip8` this says that the
    /// stack pointer counts at most the sixteen entries of the stack.
    pub open spec fn wf(&self) -> bool {
        self@.wf()
    }

    /// Tells whether the stack pointer is within the stack.
    pub fn is_well_formed(&self) -> (valid: bool)
        ensures
            valid == self.wf(),
    {
        self.stack_pointer as usize <= STACK_SIZE
    }

    /// The machine at power-on, around `rng`.
    pub fn new(rng: R) -> (machine: Self)
        ensures
            machine@ == MachineState::power_on(),
            machine.rng == rng,
            machine.wf(),
    {
        let mut machine = Self {
            memory: [0; MEMORY_SIZE],
            program_counter: PROGRAM_START,
            register_v: [0; NUM_REGISTERS],
            register_i: 0,
            delay_timer: 0,
            sound_timer: 0,
            stack: [0; STACK_SIZE],
            stack_pointer: 0,
            keypad: [false; KEYPAD_SIZE],
            screen: [false; SCREEN_SIZE],
            draw_flag: false,
            rng,
            wait_for_key_release: None,
        };
        assert(machine@.memory =~= Seq::new(4096, |i: int| 0u8));
        assert(machine@.register_v =~= MachineState::power_on().register_v);
        assert(machine@.stack =~= MachineState::power_on().stack);
        assert(machine@.keypad =~= MachineState::power_on().keypad);
        assert(machine@.screen =~= MachineState::power_on().screen);
        machine.load_fontset();
        machine
    }

    /// Writes the font table to the first 80 bytes of memory, where a new
    /// machine has it already.
    pub fn load_fontset(&mut self)
        ensures
            final(self)@ == (MachineState {
                memory: overwritten(old(self)@.memory, FONTSET_START as int, FONTSET@),
                ..old(self)@
            }),
            final(self).rng == old(self).rng,
    {
        let mut index: usize = 0;
        while index < FONTSET_SIZE
            invariant
                index <= FONTSET_SIZE,
                self.memory@ =~= overwritten(
                    old(self)@.memory,
                    0,
                    FONTSET@.subrange(0, index as int),
                ),
                self@ == (MachineState { memory: self.memory@, ..old(self)@ }),
                self.rng == old(self).rng,
            decreases FONTSET_SIZE - index,
        {
            self.memory[FONTSET_START + index] = FONTSET[index];
            index += 1;
        }
        assert(FONTSET@.subrange(0, FONTSET_SIZE as int) =~= FONTSET@);
    }

    /// Copies the program `buffer` into memory from address `0x200` on.
    /// The program must fit into the memory that follows that address.
    pub fn load_rom(&mut self, buffer: &[u8])
        requires
            buffer@.len() <= MEMORY_SIZE - PROGRAM_START,
        ensures
            final(self)@ == (MachineState {
                memory: overwritten(old(self)@.memory, PROGRAM_START as int, buffer@),
                ..old(self)@
            }),
            final(self).rng == old(self).rng,
    {
        let mut index: usize = 0;
        while index < buffer.len()
            invariant
                index <= buffer@.len() <= MEMORY_SIZE - PROGRAM_START,
                self.memory@ =~= overwritten(
                    old(self)@.memory,
                    PROGRAM_START as int,
                    buffer@.subrange(0, index as int),
                ),
                self@ == (MachineState { memory: self.memory@, ..old(self)@ }),
                self.rng == old(self).rng,
            decreases buffer@.len() - index,
        {
            self.memory[PROGRAM_START as usize + index] = buffer[index];
            index += 1;
        }
        assert(buffer@.subrange(0, buffer@.len() as int) =~= buffer@);
    }

    /// Runs one instruction: fetch, advance the program counter, decode,
    /// execute. While the machine waits for a key to be released a tick does
    /// nothing.
    pub fn tick(&mut self) -> (outcome: Result<(), InstructionError>)
        requires
            old(self).wf(),
        ensures
            (final(self)@, outcome) == tick(old(self)@, old(self).rng.upcoming()),
            final(self).rng == rng_after_tick(old(self)@, old(self).rng),
            final(self).wf(),
    {
        if self.wait_for_key_release.is_some() {
            return Ok(());
        }
        let opcode = self.fetch_opcode()?;
        let instruction = Instruction::try_from(opcode)?;
        self.execute_instruction(&instruction)
    }

    /// Counts both timers down by one, stopping at zero.
    pub fn tick_timer(&mut self)
        ensures
            final(self)@ == timers_ticked(old(self)@),
            final(self).rng == old(self).rng,
    {
        self.delay_timer = self.delay_timer.saturating_sub(1);
        self.sound_timer = self.sound_timer.saturating_sub(1);
    }

    /// Records that key `code` went down.
    pub fn press_key(&mut self, code: usize)
        requires
            code < KEYPAD_SIZE,
        ensures
            final(self)@ == key_down(old(self)@, code as int),
            final(self).rng == old(self).rng,
    {
        self.keypad[code] = true;
    }

    /// Records that key `code` was let go, which ends a wait for that key.
    pub fn release_key(&mut self, code: usize)
        requires
            code < KEYPAD_SIZE,
        ensures
            final(self)@ == key_up(old(self)@, code as int),
            final(self).rng == old(self).rng,
    {
        self.keypad[code] = false;
        if let Some(key_code) = self.wait_for_key_release {
            if code == key_code {
                self.wait_for_key_release = None;
            }
        }
    }

    /// Lets every key go and ends any wait for a key.
    pub fn release_all_keys(&mut self)
        ensures
            final(self)@ == all_keys_up(old(self)@),
            final(self).rng == old(self).rng,
    {
        self.keypad = [false; KEYPAD_SIZE];
        self.wait_for_key_release = None;
        assert(self.keypad@ =~= Seq::new(16, |i: int| false));
    }

    /// Reads the opcode at the program counter and moves the counter past
    /// it. An opcode that does not lie within memory is not read.
    pub fn fetch_opcode(&mut self) -> (fetched: Result<u16, InstructionError>)
        ensures
            match fetch(old(self)@) {
                Ok((opcode, state)) => {
                    &&& fetched == Ok::<u16, InstructionError>(opcode)
                    &&& final(self)@ == state
                },
                Err(error) => {
                    &&& fetched == Err::<u16, InstructionError>(error)
                    &&& final(self)@ == old(self)@
                },
            },
            final(self).rng == old(self).rng,
    {
        let address = self.program_counter as usize;
        if address + 1 >= MEMORY_SIZE {
            return Err(InstructionError::AddressOutOfRange);
        }
        let high_byte = self.memory[address];
        let low_byte = self.memory[address + 1];

        self.program_counter += 2;

        assert((high_byte as u16) << 8 | low_byte as u16 == high_byte * 0x100 + low_byte)
            by (bit_vector);
        Ok((high_byte as u16) << 8 | low_byte as u16)
    }

    /// Applies one decoded instruction to the machine. An instruction that
    /// fails leaves the machine as it was.
    pub fn execute_instruction(&mut self, instruction: &Instruction) -> (outcome: Result<
        (),
        InstructionError,
    >)
        requires
            old(self).wf(),
            instruction.wf(),
        ensures
            outcome == outcome_of(execute(old(self)@, *instruction, old(self).rng.upcoming())),
            final(self)@ == state_after(
                old(self)@,
                execute(old(self)@, *instruction, old(self).rng.upcoming()),
            ),
            final(self).rng == (if draws_random(*instruction) {
                old(self).rng.advanced()
            } else {
                old(self).rng
            }),
            final(self).wf(),
    {
        match *instruction {
            Instruction::Ins00E0 => {
                self.clear_screen();
                Ok(())
            },
            Instruction::Ins00EE => self.return_from_subroutine(),
            Instruction::Ins1NNN(nnn) => {
                self.program_counter = nnn;
                Ok(())
            },
            Instruction::Ins2NNN(nnn) => self.call_subroutine(nnn),
            Instruction::Ins3XNN(x, nn) => {
                self.skip_if(self.register_v[x as usize] == nn);
                Ok(())
            },
            Instruction::Ins4XNN(x, nn) => {
                self.skip_if(self.register_v[x as usize] != nn);
                Ok(())
            },
            Instruction::Ins5XY0(x, y) => {
                self.skip_if(self.register_v[x as usize] == self.register_v[y as usize]);
                Ok(())
            },
            Instruction::Ins6XNN(x, nn) => {
                self.set_register(x, nn);
                Ok(())
            },
            Instruction::Ins7XNN(x, nn) => {
                proof {
                    lemma_wrap8(self.register_v[x as int], nn);
                }
                self.set_register(x, self.register_v[x as usize].wrapping_add(nn));
                Ok(())
            },
            Instruction::Ins8XY0(x, y) => {
                self.set_register(x, self.register_v[y as usize]);
                Ok(())
            },
            Instruction::Ins8XY1(x, y) => {
                let value = self.register_v[x as usize] | self.register_v[y as usize];
                self.set_result(x, value, 0);
                Ok(())
            },
            Instruction::Ins8XY2(x, y) => {
                let value = self.register_v[x as usize] & self.register_v[y as usize];
                self.set_result(x, value, 0);
                Ok(())
            },
            Instruction::Ins8XY3(x, y) => {
                let value = self.register_v[x as usize] ^ self.register_v[y as usize];
                self.set_result(x, value, 0);
                Ok(())
            },
            Instruction::Ins8XY4(x, y) => {
                let vx = self.register_v[x as usize];
                let vy = self.register_v[y as usize];
                let carry = vx > 0xFF - vy;
                proof {
                    lemma_wrap8(vx, vy);
                }
                self.set_result(x, vx.wrapping_add(vy), carry as u8);
                Ok(())
            },
            Instruction::Ins8XY5(x, y) => {
                let vx = self.register_v[x as usize];
                let vy = self.register_v[y as usize];
                let borrow = vx < vy;
                proof {
                    lemma_wrap8(vx, vy);
                }
                self.set_result(x, vx.wrapping_sub(vy), !borrow as u8);
                Ok(())
            },
            Instruction::Ins8XY6(x, y) => {
                let vy = self.register_v[y as usize];
                let lsb = vy & 1;
                assert(vy & 1 == vy % 2 && vy >> 1 == vy / 2) by (bit_vector);
                self.set_result(x, vy >> 1, lsb);
                Ok(())
            },
            Instruction::Ins8XY7(x, y) => {
                let vx = self.register_v[x as usize];
                let vy = self.register_v[y as usize];
                let borrow = vy < vx;
                proof {
                    lemma_wrap8(vy, vx);
                }
                self.set_result(x, vy.wrapping_sub(vx), !borrow as u8);
                Ok(())
            },
            Instruction::Ins8XYE(x, y) => {
                let vy = self.register_v[y as usize];
                let msb = vy >> 7;
                assert(vy >> 7 == vy / 128 && vy << 1 == (vy * 2) % 0x100) by (bit_vector);
                self.set_result(x, vy << 1, msb);
                Ok(())
            },
            Instruction::Ins9XY0(x, y) => {
                self.skip_if(self.register_v[x as usize] != self.register_v[y as usize]);
                Ok(())
            },
            Instruction::InsANNN(nnn) => {
                self.register_i = nnn;
                Ok(())
            },
            Instruction::InsBNNN(nnn) => {
                self.program_counter = nnn + self.register_v[0] as u16;
                Ok(())
            },
            Instruction::InsCXNN(x, nn) => {
                let random = self.rng.next();
                assert(random as u8 == random % 0x100) by (bit_vector);
                self.set_register(x, #[verifier::truncate] (random as u8) & nn);
                Ok(())
            },
            Instruction::InsDXYN(x, y, n) => self.draw(x, y, n),
            Instruction::InsEX9E(x) => {
                let key = self.register_v[x as usize] as usize;
                self.skip_if(key < KEYPAD_SIZE && self.keypad[key]);
                Ok(())
            },
            Instruction::InsEXA1(x) => {
                let key = self.register_v[x as usize] as usize;
                self.skip_if(!(key < KEYPAD_SIZE && self.keypad[key]));
                Ok(())
            },
            Instruction::InsFX07(x) => {
                self.set_register(x, self.delay_timer);
                Ok(())
            },
            Instruction::InsFX0A(x) => {
                self.await_key(x);
                Ok(())
            },
            Instruction::InsFX15(x) => {
                self.delay_timer = self.register_v[x as usize];
                Ok(())
            },
            Instruction::InsFX18(x) => {
                self.sound_timer = self.register_v[x as usize];
                Ok(())
            },
            Instruction::InsFX1E(x) => {
                proof {
                    lemma_wrap16(self.register_i, self.register_v[x as int]);
                }
                self.register_i = self.register_i.wrapping_add(self.register_v[x as usize] as u16);
                Ok(())
            },
            Instruction::InsFX29(x) => {
                self.register_i = self.register_v[x as usize] as u16 * 5;
                Ok(())
            },
            Instruction::InsFX33(x) => self.store_digits(x),
            Instruction::InsFX55(x) => self.dump_registers(x),
            Instruction::InsFX65(x) => self.fill_registers(x),
        }
    }

    /// Turns every pixel off and marks the screen as changed.
    fn clear_screen(&mut self)
        ensures
            final(self)@ == (MachineState {
                screen: Seq::new(2048, |i: int| false),
                draw_flag: true,
                ..old(self)@
            }),
            final(self).rng == old(self).rng,
    {
        self.screen = [false; SCREEN_SIZE];
        self.draw_flag = true;
        assert(self.screen@ =~= Seq::new(2048, |i: int| false));
    }

    /// Moves the program counter past one more instruction if `condition`
    /// holds.
    fn skip_if(&mut self, condition: bool)
        ensures
            final(self)@ == old(self)@.skip_if(condition),
            final(self).rng == old(self).rng,
    {
        if condition {
            proof {
                lemma_wrap16(self.program_counter, 2);
            }
            self.program_counter = self.program_counter.wrapping_add(2);
        }
    }

    /// Writes `value` to register `x`.
    fn set_register(&mut self, x: u8, value: u8)
        requires
            x < NUM_REGISTERS,
        ensures
            final(self)@ == old(self)@.with_register(x, value),
            final(self).rng == old(self).rng,
    {
        self.register_v[x as usize] = value;
    }

    /// Writes `value` to register `x`, then `flag` to the flag register.
    fn set_result(&mut self, x: u8, value: u8, flag: u8)
        requires
            x < NUM_REGISTERS,
        ensures
            final(self)@ == old(self)@.with_result(x, value, flag),
            final(self).rng == old(self).rng,
    {
        self.register_v[x as usize] = value;
        self.register_v[0xF] = flag;
    }

    /// Pops the return address into the program counter.
    fn return_from_subroutine(&mut self) -> (outcome: Result<(), InstructionError>)
        requires
            old(self).wf(),
        ensures
            outcome == outcome_of(old(self)@.returned()),
            final(self)@ == state_after(old(self)@, old(self)@.returned()),
            final(self).rng == old(self).rng,
            final(self).wf(),
    {
        if self.stack_pointer == 0 {
            return Err(InstructionError::StackUnderflow);
        }
        self.stack_pointer -= 1;
        self.program_counter = self.stack[self.stack_pointer as usize];
        Ok(())
    }

    /// Pushes the program counter and jumps to `target`.
    fn call_subroutine(&mut self, target: u16) -> (outcome: Result<(), InstructionError>)
        requires
            old(self).wf(),
        ensures
            outcome == outcome_of(old(self)@.called(target)),
            final(self)@ == state_after(old(self)@, old(self)@.called(target)),
            final(self).rng == old(self).rng,
            final(self).wf(),
    {
        if self.stack_pointer as usize >= STACK_SIZE {
            return Err(InstructionError::StackOverflow);
        }
        self.stack[self.stack_pointer as usize] = self.program_counter;
        self.stack_pointer += 1;
        self.program_counter = target;
        Ok(())
    }

    /// Draws the sprite of `n` rows that `I` points at, at the column in
    /// `Vx` and the row in `Vy`, and records a collision in the flag
    /// register.
    fn draw(&mut self, x: u8, y: u8, n: u8) -> (outcome: Result<(), InstructionError>)
        requires
            x < NUM_REGISTERS,
            y < NUM_REGISTERS,
            n < 16,
        ensures
            outcome == outcome_of(old(self)@.sprite_drawn(x, y, n)),
            final(self)@ == state_after(old(self)@, old(self)@.sprite_drawn(x, y, n)),
            final(self).rng == old(self).rng,
    {
        let vx = self.register_v[x as usize] % SCREEN_WIDTH as u8;
        let vy = self.register_v[y as usize] % SCREEN_HEIGHT as u8;
        let visible = if n > SCREEN_HEIGHT as u8 - vy {
            SCREEN_HEIGHT as u8 - vy
        } else {
            n
        };
        if visible > 0 && self.register_i as usize + visible as usize > MEMORY_SIZE {
            return Err(InstructionError::AddressOutOfRange);
        }
        let hit = draw_sprite(&mut self.screen, &self.memory, self.register_i, n, vx, vy);
        self.register_v[0xF] = hit as u8;
        self.draw_flag = true;
        Ok(())
    }

    /// Captures the lowest key that is held down, or sets the instruction
    /// up to run again if none is.
    fn await_key(&mut self, x: u8)
        requires
            x < NUM_REGISTERS,
        ensures
            final(self)@ == old(self)@.key_awaited(x),
            final(self).rng == old(self).rng,
    {
        match first_pressed_key(&self.keypad) {
            Some(key_code) => {
                self.wait_for_key_release = Some(key_code);
                self.register_v[x as usize] = key_code as u8;
            },
            None => {
                proof {
                    lemma_wrap16(self.program_counter, 2);
                }
                self.program_counter = self.program_counter.wrapping_sub(2);
            },
        }
    }

    /// Writes the hundreds, tens and ones of `Vx` to memory at `I`.
    fn store_digits(&mut self, x: u8) -> (outcome: Result<(), InstructionError>)
        requires
            x < NUM_REGISTERS,
        ensures
            outcome == outcome_of(old(self)@.digits_stored(x)),
            final(self)@ == state_after(old(self)@, old(self)@.digits_stored(x)),
            final(self).rng == old(self).rng,
    {
        let base = self.register_i as usize;
        if base + 2 >= MEMORY_SIZE {
            return Err(InstructionError::AddressOutOfRange);
        }
        let hundreds = self.register_v[x as usize] / 100;
        let tens = (self.register_v[x as usize] / 10) % 10;
        let ones = self.register_v[x as usize] % 10;
        self.memory[base] = hundreds;
        self.memory[base + 1] = tens;
        self.memory[base + 2] = ones;
        Ok(())
    }

    /// Copies `V0..=Vx` to memory at `I` and moves `I` past them.
    fn dump_registers(&mut self, x: u8) -> (outcome: Result<(), InstructionError>)
        requires
            x < NUM_REGISTERS,
        ensures
            outcome == outcome_of(old(self)@.registers_dumped(x)),
            final(self)@ == state_after(old(self)@, old(self)@.registers_dumped(x)),
            final(self).rng == old(self).rng,
    {
        let base = self.register_i as usize;
        if base + x as usize >= MEMORY_SIZE {
            return Err(InstructionError::AddressOutOfRange);
        }
        let mut index: u8 = 0;
        while index <= x
            invariant
                index <= x + 1,
                x < 16,
                base == old(self).register_i,
                base + x < MEMORY_SIZE,
                self.memory@ =~= registers_stored(
                    old(self)@.memory,
                    old(self)@.register_v,
                    base as int,
                    index - 1,
                ),
                self@ == (MachineState { memory: self.memory@, ..old(self)@ }),
                self.rng == old(self).rng,
            decreases x + 1 - index,
        {
            self.memory[base + index as usize] = self.register_v[index as usize];
            index += 1;
        }
        self.register_i += x as u16 + 1;
        Ok(())
    }

    /// Copies memory at `I` to `V0..=Vx` and moves `I` past what was read.
    fn fill_registers(&mut self, x: u8) -> (outcome: Result<(), InstructionError>)
        requires
            x < NUM_REGISTERS,
        ensures
            outcome == outcome_of(old(self)@.registers_filled(x)),
            final(self)@ == state_after(old(self)@, old(self)@.registers_filled(x)),
            final(self).rng == old(self).rng,
    {
        let base = self.register_i as usize;
        if base + x as usize >= MEMORY_SIZE {
            return Err(InstructionError::AddressOutOfRange);
        }
        let mut index: u8 = 0;
        while index <= x
            invariant
                index <= x + 1,
                x < 16,
                base == old(self).register_i,
                base + x < MEMORY_SIZE,
                self.register_v@ =~= registers_loaded(
                    old(self)@.memory,
                    old(self)@.register_v,
                    base as int,
                    index - 1,
                ),
                self@ == (MachineState { register_v: self.register_v@, ..old(self)@ }),
                self.rng == old(self).rng,
            decreases x + 1 - index,
        {
            self.register_v[index as usize] = self.memory[base + index as usize];
            index += 1;
        }
        self.register_i += x as u16 + 1;
        Ok(())
    }
}

/// The lowest key code whose key is held down.
fn first_pressed_key(keypad: &[bool; KEYPAD_SIZE]) -> (key: Option<usize>)
    ensures
        key == lowest_pressed(keypad@),
        key matches Some(code) ==> code < KEYPAD_SIZE,
{
    let mut key_code: usize = 0;
    while key_code < KEYPAD_SIZE
        invariant
            key_code <= KEYPAD_SIZE,
            lowest_pressed(keypad@) == lowest_pressed_from(keypad@, key_code as int),
        decreases KEYPAD_SIZE - key_code,
    {
        if keypad[key_code] {
            return Some(key_code);
        }
        key_code += 1;
    }
    None
}

} // verus!
