//! Laws of the machine: what holds of every state and every instruction,
//! proved from the semantics.
use vstd::prelude::*;
use crate::display::Sprite;
use crate::instruction::{decode, decode_is_total, Instruction, InstructionError};
use crate::model::MachineState;
use crate::rng::RandomSource;
use crate::semantics::{
    all_keys_up, execute, fetch, fetched_instruction, flag, key_up, lemma_wrap8, lowest_pressed,
    lowest_pressed_from, run_ticks, sprite_of, tick,
};

verus! {

/// An instruction whose operands fit their fields leaves a well-formed
/// state well-formed: the parts keep their sizes and the stack pointer
/// stays within the stack.
pub proof fn execute_keeps_the_state_well_formed(
    s: MachineState,
    instruction: Instruction,
    random: u16,
)
    requires
        s.wf(),
        instruction.wf(),
    ensures
        execute(s, instruction, random) matches Ok(after) ==> after.wf(),
{
}

/// A tick leaves a well-formed state well-formed, however it ends.
pub proof fn tick_keeps_the_state_well_formed(s: MachineState, random: u16)
    requires
        s.wf(),
    ensures
        tick(s, random).0.wf(),
{
    if s.idle() && fetch(s) is Ok {
        let (opcode, fetched) = fetch(s)->Ok_0;
        decode_is_total(opcode);
        if decode(opcode) is Ok {
            execute_keeps_the_state_well_formed(fetched, decode(opcode)->Ok_0, random);
        }
    }
}

/// Clearing the screen turns all 2048 pixels off and sets the dirty flag,
/// whatever the screen showed before.
pub proof fn clear_screen_blanks_every_pixel(s: MachineState, random: u16)
    ensures
        execute(s, Instruction::Ins00E0, random) matches Ok(after) && after.draw_flag
            && after.screen.len() == 2048 && forall|pixel: int|
            0 <= pixel < 2048 ==> !after.screen[pixel],
{
}

/// The three bitwise instructions leave the flag register at zero,
/// whatever it held before and whichever registers they combine.
pub proof fn bitwise_operations_reset_flag(s: MachineState, x: u8, y: u8, random: u16)
    requires
        s.wf(),
        x < 16,
        y < 16,
    ensures
        execute(s, Instruction::Ins8XY1(x, y), random) matches Ok(after) && after.register_v[0xF]
            == 0,
        execute(s, Instruction::Ins8XY2(x, y), random) matches Ok(after) && after.register_v[0xF]
            == 0,
        execute(s, Instruction::Ins8XY3(x, y), random) matches Ok(after) && after.register_v[0xF]
            == 0,
{
}

/// The flag completes what the eight bits of the result cannot hold: with
/// the carry the sum is whole, with the borrow the difference, and with the
/// bit shifted out the shifted value. The destination must not be the flag
/// register itself, which would keep the flag alone.
pub proof fn flag_completes_the_result(s: MachineState, x: u8, y: u8, random: u16)
    requires
        s.wf(),
        x < 15,
        y < 16,
    ensures
        ({
            let vx = s.register_v[x as int] as int;
            let vy = s.register_v[y as int] as int;
            &&& execute(s, Instruction::Ins8XY4(x, y), random) matches Ok(after)
                && after.register_v[0xF] <= 1 && after.register_v[x as int] + 256
                * after.register_v[0xF] == vx + vy
            &&& execute(s, Instruction::Ins8XY5(x, y), random) matches Ok(after)
                && after.register_v[0xF] <= 1 && after.register_v[x as int] - 256 * (1
                - after.register_v[0xF]) == vx - vy
            &&& execute(s, Instruction::Ins8XY7(x, y), random) matches Ok(after)
                && after.register_v[0xF] <= 1 && after.register_v[x as int] - 256 * (1
                - after.register_v[0xF]) == vy - vx
            &&& execute(s, Instruction::Ins8XY6(x, y), random) matches Ok(after)
                && after.register_v[0xF] <= 1 && 2 * after.register_v[x as int]
                + after.register_v[0xF] == vy
            &&& execute(s, Instruction::Ins8XYE(x, y), random) matches Ok(after)
                && after.register_v[0xF] <= 1 && after.register_v[x as int] + 256
                * after.register_v[0xF] == 2 * vy
        }),
{
    let vx = s.register_v[x as int];
    let vy = s.register_v[y as int];
    lemma_wrap8(vx, vy);
    lemma_wrap8(vy, vx);
    lemma_wrap8(vy, vy);
}

/// The three bytes that the decimal instruction stores are decimal digits
/// and spell the register's value; nothing else in memory changes.
pub proof fn stored_digits_spell_the_value(s: MachineState, x: u8, random: u16)
    requires
        s.wf(),
        x < 16,
        s.register_i + 2 < 4096,
    ensures
        ({
            let base = s.register_i as int;
            &&& execute(s, Instruction::InsFX33(x), random) matches Ok(after)
            &&& after.memory[base] < 10 && after.memory[base + 1] < 10 && after.memory[base + 2]
                < 10
            &&& after.memory[base] * 100 + after.memory[base + 1] * 10 + after.memory[base + 2]
                == s.register_v[x as int]
            &&& forall|a: int|
                0 <= a < 4096 && !(base <= a <= base + 2) ==> after.memory[a] == s.memory[a]
            &&& after == (MachineState { memory: after.memory, ..s })
        }),
{
}

/// A register dump with operand `x` copies exactly the `x + 1` registers
/// `V0..=Vx` to memory at `I`, and a register load copies exactly as many
/// back; either leaves `I` increased by `x + 1` and everything else alone.
pub proof fn register_transfer_moves_x_plus_one(s: MachineState, x: u8, random: u16)
    requires
        s.wf(),
        x < 16,
        s.register_i + x < 4096,
    ensures
        ({
            let base = s.register_i as int;
            &&& execute(s, Instruction::InsFX55(x), random) matches Ok(after)
            &&& forall|r: int| 0 <= r <= x ==> after.memory[base + r] == s.register_v[r]
            &&& forall|a: int|
                0 <= a < 4096 && !(base <= a <= base + x) ==> after.memory[a] == s.memory[a]
            &&& after == (MachineState {
                memory: after.memory,
                register_i: (base + x + 1) as u16,
                ..s
            })
        }),
        ({
            let base = s.register_i as int;
            &&& execute(s, Instruction::InsFX65(x), random) matches Ok(after)
            &&& forall|r: int| 0 <= r <= x ==> after.register_v[r] == s.memory[base + r]
            &&& forall|r: int| x < r < 16 ==> after.register_v[r] == s.register_v[r]
            &&& after == (MachineState {
                register_v: after.register_v,
                register_i: (base + x + 1) as u16,
                ..s
            })
        }),
{
}

/// A draw changes no pixel outside the eight columns and `rows` rows that
/// start at the sprite's corner: what would fall beyond the right or the
/// bottom edge is clipped and does not come back on the other side.
pub proof fn drawing_is_confined_to_the_sprite(sprite: Sprite, screen: Seq<bool>)
    requires
        screen.len() == 2048,
    ensures
        forall|pixel: int|
            0 <= pixel < 2048 && !sprite.covers(pixel % 64, pixel / 64) ==> sprite.drawn(
                screen,
            )[pixel] == screen[pixel],
{
}

/// The draw instruction wraps only its start point: left of the start
/// column and above the start row no pixel changes, so a sprite that
/// reaches past the right or the bottom edge is cut off there.
pub proof fn draw_instruction_does_not_wrap(s: MachineState, x: u8, y: u8, n: u8, random: u16)
    requires
        s.wf(),
        x < 16,
        y < 16,
        n < 16,
    ensures
        execute(s, Instruction::InsDXYN(x, y, n), random) matches Ok(after) ==> forall|pixel: int|
            0 <= pixel < 2048 && (pixel % 64 < s.register_v[x as int] % 64 || pixel / 64
                < s.register_v[y as int] % 32) ==> after.screen[pixel] == s.screen[pixel],
{
    drawing_is_confined_to_the_sprite(sprite_of(s, x, y, n), s.screen);
}

/// Drawing a sprite a second time undoes the first draw, and the second
/// draw reports a collision exactly if the first one lit a pixel.
pub proof fn drawing_twice_cancels(sprite: Sprite, screen: Seq<bool>)
    requires
        screen.len() == 2048,
    ensures
        sprite.drawn(sprite.drawn(screen)) == screen,
        sprite.collides(sprite.drawn(screen)) <==> exists|pixel: int|
            0 <= pixel < 2048 && !screen[pixel] && #[trigger] sprite.lit_at(pixel),
{
    let once = sprite.drawn(screen);
    assert(sprite.drawn(once) =~= screen);
    if sprite.collides(once) {
        let pixel = choose|pixel: int|
            0 <= pixel < 2048 && once[pixel] && #[trigger] sprite.lit_at(pixel);
        assert(!screen[pixel] && sprite.lit_at(pixel));
    }
    if exists|pixel: int| 0 <= pixel < 2048 && !screen[pixel] && #[trigger] sprite.lit_at(pixel) {
        let pixel = choose|pixel: int|
            0 <= pixel < 2048 && !screen[pixel] && #[trigger] sprite.lit_at(pixel);
        assert(once[pixel] && sprite.lit_at(pixel));
    }
}

/// The draw instruction executed twice in a row, with coordinates that do
/// not come from the flag register: both draws succeed or the first fails;
/// the second restores the screen, and it sets the flag exactly if the
/// first draw lit a pixel. On a screen that was clear, the screen is clear
/// again and the flag is set as soon as the sprite has a lit bit in view.
pub proof fn draw_instruction_twice_cancels(s: MachineState, x: u8, y: u8, n: u8, random: u16)
    requires
        s.wf(),
        x < 15,
        y < 15,
        n < 16,
        execute(s, Instruction::InsDXYN(x, y, n), random) is Ok,
    ensures
        ({
            let once = execute(s, Instruction::InsDXYN(x, y, n), random)->Ok_0;
            let sprite = sprite_of(s, x, y, n);
            &&& execute(once, Instruction::InsDXYN(x, y, n), random) matches Ok(twice)
            &&& twice.screen == s.screen
            &&& twice.draw_flag
            &&& twice.register_v[0xF] == flag(
                exists|pixel: int|
                    0 <= pixel < 2048 && !s.screen[pixel] && #[trigger] sprite.lit_at(pixel),
            )
        }),
{
    let once = execute(s, Instruction::InsDXYN(x, y, n), random)->Ok_0;
    let sprite = sprite_of(s, x, y, n);
    assert(sprite_of(once, x, y, n) == sprite);
    drawing_twice_cancels(sprite, s.screen);
}

/// What the search from `from` on finds is the first key at or above
/// `from` that is down, and it finds nothing only if none is.
proof fn lowest_pressed_from_is_first(keypad: Seq<bool>, from: int)
    requires
        keypad.len() == 16,
        0 <= from <= 16,
    ensures
        match lowest_pressed_from(keypad, from) {
            Some(key) => from <= key < keypad.len() && keypad[key as int] && forall|k: int|
                from <= k < key ==> !keypad[k],
            None => forall|k: int| from <= k < keypad.len() ==> !keypad[k],
        },
    decreases keypad.len() - from,
{
    if from < keypad.len() && !keypad[from] {
        lowest_pressed_from_is_first(keypad, from + 1);
    }
}

/// The key that the wait-for-key instruction captures is the one with the
/// lowest code among the keys that are down; none is captured only if no
/// key is down.
pub proof fn lowest_pressed_is_first(keypad: Seq<bool>)
    requires
        keypad.len() == 16,
    ensures
        match lowest_pressed(keypad) {
            Some(key) => key < 16 && keypad[key as int] && forall|k: int|
                0 <= k < key ==> !keypad[k],
            None => forall|k: int| 0 <= k < 16 ==> !keypad[k],
        },
{
    lowest_pressed_from_is_first(keypad, 0);
}

/// While no key is down, a machine that stands at a wait-for-key
/// instruction stays exactly as it is, however many ticks it is given: the
/// instruction is retried, the program makes no progress.
pub proof fn waiting_for_a_key_makes_no_progress<R: RandomSource>(
    s: MachineState,
    rng: R,
    x: u8,
    count: nat,
)
    requires
        s.wf(),
        fetched_instruction(s) == Some(Instruction::InsFX0A(x)),
        forall|k: int| 0 <= k < 16 ==> !s.keypad[k],
    ensures
        tick(s, rng.upcoming()) == (s, Ok::<(), InstructionError>(())),
        run_ticks(s, rng, count) == (s, rng, Ok::<(), InstructionError>(())),
    decreases count,
{
    lowest_pressed_is_first(s.keypad);
    if count > 0 {
        waiting_for_a_key_makes_no_progress(s, rng, x, (count - 1) as nat);
    }
}

/// With a key down, the tick that executes a wait-for-key instruction
/// captures the lowest such key: the key's code goes to the register, the
/// machine starts to wait for the release of that key, and the program
/// counter stands behind the instruction.
pub proof fn key_down_is_captured(s: MachineState, x: u8, random: u16)
    requires
        s.wf(),
        fetched_instruction(s) == Some(Instruction::InsFX0A(x)),
        exists|k: int| 0 <= k < 16 && s.keypad[k],
    ensures
        ({
            let (after, outcome) = tick(s, random);
            &&& outcome is Ok
            &&& lowest_pressed(s.keypad) matches Some(key)
            &&& after.wait_for_key_release == Some(key)
            &&& after.register_v[x as int] == key
            &&& after.program_counter == s.program_counter + 2
            &&& after == (MachineState {
                wait_for_key_release: after.wait_for_key_release,
                register_v: after.register_v,
                program_counter: after.program_counter,
                ..s
            })
        }),
{
    lowest_pressed_is_first(s.keypad);
    decode_is_total(fetch(s)->Ok_0.0);
}

/// A machine that waits for a key to be released does nothing, however
/// many ticks it is given and whatever the random source holds.
pub proof fn waiting_for_release_holds_the_machine<R: RandomSource>(
    s: MachineState,
    rng: R,
    random: u16,
    count: nat,
)
    requires
        !s.idle(),
    ensures
        tick(s, random) == (s, Ok::<(), InstructionError>(())),
        run_ticks(s, rng, count) == (s, rng, Ok::<(), InstructionError>(())),
{
}

/// The wait for a key ends when that key is let go, or when all keys are;
/// letting another key go does not end it.
pub proof fn release_ends_the_wait(s: MachineState, key: usize, other: usize)
    requires
        s.wait_for_key_release == Some(key),
        other != key,
    ensures
        key_up(s, key as int).idle(),
        all_keys_up(s).idle(),
        key_up(s, other as int).wait_for_key_release == Some(key),
{
}

} // verus!
