//! The instruction set: the instruction forms, the decoder that turns a
//! 16-bit opcode into one of them, and the errors the machine can report.
use vstd::prelude::*;

verus! {

/// One decoded instruction. A variant is named after the hexadecimal shape
/// of its opcode and carries the operands in the order in which the name
/// spells them: `X` and `Y` are register indices, `N` a 4-bit count, `NN` an
/// 8-bit immediate and `NNN` a 12-bit address.
#[derive(Clone, Copy, Debug, PartialEq, Eq)]
pub enum Instruction {
    /// Clear the screen.
    Ins00E0,
    /// Return from a subroutine.
    Ins00EE,
    /// Jump to `NNN`.
    Ins1NNN(u16),
    /// Call the subroutine at `NNN`.
    Ins2NNN(u16),
    /// Skip the next instruction if `VX == NN`.
    Ins3XNN(u8, u8),
    /// Skip the next instruction if `VX != NN`.
    Ins4XNN(u8, u8),
    /// Skip the next instruction if `VX == VY`.
    Ins5XY0(u8, u8),
    /// `VX = NN`.
    Ins6XNN(u8, u8),
    /// `VX += NN`, wrapping, flag untouched.
    Ins7XNN(u8, u8),
    /// `VX = VY`.
    Ins8XY0(u8, u8),
    /// `VX |= VY`, flag reset.
    Ins8XY1(u8, u8),
    /// `VX &= VY`, flag reset.
    Ins8XY2(u8, u8),
    /// `VX ^= VY`, flag reset.
    Ins8XY3(u8, u8),
    /// `VX += VY`, flag = carry.
    Ins8XY4(u8, u8),
    /// `VX -= VY`, flag = no borrow.
    Ins8XY5(u8, u8),
    /// `VX = VY >> 1`, flag = the bit shifted out.
    Ins8XY6(u8, u8),
    /// `VX = VY - VX`, flag = no borrow.
    Ins8XY7(u8, u8),
    /// `VX = VY << 1`, flag = the bit shifted out.
    Ins8XYE(u8, u8),
    /// Skip the next instruction if `VX != VY`.
    Ins9XY0(u8, u8),
    /// `I = NNN`.
    InsANNN(u16),
    /// Jump to `NNN + V0`.
    InsBNNN(u16),
    /// `VX = random & NN`.
    InsCXNN(u8, u8),
    /// Draw the `N`-row sprite at `I` at column `VX`, row `VY`.
    InsDXYN(u8, u8, u8),
    /// Skip the next instruction if key `VX` is pressed.
    InsEX9E(u8),
    /// Skip the next instruction if key `VX` is not pressed.
    InsEXA1(u8),
    /// `VX = delay_timer`.
    InsFX07(u8),
    /// Wait for a key press and store the key in `VX`.
    InsFX0A(u8),
    /// `delay_timer = VX`.
    InsFX15(u8),
    /// `sound_timer = VX`.
    InsFX18(u8),
    /// `I += VX`.
    InsFX1E(u8),
    /// `I` = address of the glyph for `VX`.
    InsFX29(u8),
    /// Store the three decimal digits of `VX` at `I`, `I + 1`, `I + 2`.
    InsFX33(u8),
    /// Store `V0..=VX` at `I`, then `I += X + 1`.
    InsFX55(u8),
    /// Load `V0..=VX` from `I`, then `I += X + 1`.
    InsFX65(u8),
}

/// What can go wrong while the machine runs a program.
#[derive(Clone, Copy, Debug, PartialEq, Eq)]
pub enum InstructionError {
    /// The opcode matches none of the instruction forms.
    UnknownOpcode(u16),
    /// A fetch or an instruction would touch memory past its last byte.
    AddressOutOfRange,
    /// A call with all sixteen stack entries in use.
    StackOverflow,
    /// A return with no stack entry in use.
    StackUnderflow,
}

/// The lower-case character of the hexadecimal digit `digit`.
pub open spec fn hex_digit(digit: u8) -> char {
    if digit < 10 {
        ('0' as u8 + digit) as char
    } else {
        ('a' as u8 + digit - 10) as char
    }
}

/// The four hexadecimal digits of `value`, most significant first.
pub open spec fn hex4(value: u16) -> Seq<char> {
    seq![
        hex_digit(nibble1(value)),
        hex_digit(nibble2(value)),
        hex_digit(nibble3(value)),
        hex_digit(nibble4(value)),
    ]
}

/// The message for an opcode that matches no instruction form.
///
/// Trusted: the text comes from `format!` of the standard library, whose
/// `{:04x}` writes a number in lower-case hexadecimal, padded with zeros to
/// four digits. A 16-bit value has at most four such digits, so the number
/// always takes exactly four characters.
#[verifier::external_body]
fn unknown_opcode_text(opcode: u16) -> (text: String)
    ensures
        text@ == "Unknown opcode: "@ + hex4(opcode),
{
    format!("Unknown opcode: {:04x}", opcode)
}

impl InstructionError {
    /// The message that describes the error.
    pub open spec fn text(self) -> Seq<char> {
        match self {
            InstructionError::UnknownOpcode(opcode) => "Unknown opcode: "@ + hex4(opcode),
            InstructionError::AddressOutOfRange => "Address out of range"@,
            InstructionError::StackOverflow => "Stack overflow"@,
            InstructionError::StackUnderflow => "Stack underflow"@,
        }
    }

    /// The message that describes the error, as an owned string.
    pub fn to_string(&self) -> (text: String)
        ensures
            text@ == self.text(),
    {
        match self {
            InstructionError::UnknownOpcode(opcode) => unknown_opcode_text(*opcode),
            InstructionError::AddressOutOfRange => "Address out of range".to_owned(),
            InstructionError::StackOverflow => "Stack overflow".to_owned(),
            InstructionError::StackUnderflow => "Stack underflow".to_owned(),
        }
    }
}

/// Most significant nibble of `opcode`.
pub open spec fn nibble1(opcode: u16) -> u8 {
    (opcode / 0x1000) as u8
}

/// Second nibble of `opcode`, counted from the most significant.
pub open spec fn nibble2(opcode: u16) -> u8 {
    (opcode / 0x100 % 0x10) as u8
}

/// Third nibble of `opcode`, counted from the most significant.
pub open spec fn nibble3(opcode: u16) -> u8 {
    (opcode / 0x10 % 0x10) as u8
}

/// Least significant nibble of `opcode`.
pub open spec fn nibble4(opcode: u16) -> u8 {
    (opcode % 0x10) as u8
}

/// Low byte of `opcode`: the immediate `NN`.
pub open spec fn low_byte(opcode: u16) -> u8 {
    (opcode % 0x100) as u8
}

/// Low twelve bits of `opcode`: the address `NNN`.
pub open spec fn low_address(opcode: u16) -> u16 {
    opcode % 0x1000
}

/// The decoding table. The first nibble selects the family; within the
/// families `0`, `8`, `E` and `F` the third and fourth nibbles select the
/// member, and every nibble that takes no part in the selection is either an
/// operand or ignored.
pub open spec fn decode(opcode: u16) -> Result<Instruction, InstructionError> {
    let x = nibble2(opcode);
    let y = nibble3(opcode);
    let n = nibble4(opcode);
    let nn = low_byte(opcode);
    let nnn = low_address(opcode);
    let unknown = Err::<Instruction, InstructionError>(InstructionError::UnknownOpcode(opcode));
    match nibble1(opcode) {
        0x0 => match n {
            0x0 => Ok(Instruction::Ins00E0),
            0xE => Ok(Instruction::Ins00EE),
            _ => unknown,
        },
        0x1 => Ok(Instruction::Ins1NNN(nnn)),
        0x2 => Ok(Instruction::Ins2NNN(nnn)),
        0x3 => Ok(Instruction::Ins3XNN(x, nn)),
        0x4 => Ok(Instruction::Ins4XNN(x, nn)),
        0x5 => Ok(Instruction::Ins5XY0(x, y)),
        0x6 => Ok(Instruction::Ins6XNN(x, nn)),
        0x7 => Ok(Instruction::Ins7XNN(x, nn)),
        0x8 => match n {
            0x0 => Ok(Instruction::Ins8XY0(x, y)),
            0x1 => Ok(Instruction::Ins8XY1(x, y)),
            0x2 => Ok(Instruction::Ins8XY2(x, y)),
            0x3 => Ok(Instruction::Ins8XY3(x, y)),
            0x4 => Ok(Instruction::Ins8XY4(x, y)),
            0x5 => Ok(Instruction::Ins8XY5(x, y)),
            0x6 => Ok(Instruction::Ins8XY6(x, y)),
            0x7 => Ok(Instruction::Ins8XY7(x, y)),
            0xE => Ok(Instruction::Ins8XYE(x, y)),
            _ => unknown,
        },
        0x9 => Ok(Instruction::Ins9XY0(x, y)),
        0xA => Ok(Instruction::InsANNN(nnn)),
        0xB => Ok(Instruction::InsBNNN(nnn)),
        0xC => Ok(Instruction::InsCXNN(x, nn)),
        0xD => Ok(Instruction::InsDXYN(x, y, n)),
        0xE => match y {
            0x9 => Ok(Instruction::InsEX9E(x)),
            0xA => Ok(Instruction::InsEXA1(x)),
            _ => unknown,
        },
        0xF => match y {
            0x0 => match n {
                0x7 => Ok(Instruction::InsFX07(x)),
                0xA => Ok(Instruction::InsFX0A(x)),
                _ => unknown,
            },
            0x1 => match n {
                0x5 => Ok(Instruction::InsFX15(x)),
                0x8 => Ok(Instruction::InsFX18(x)),
                0xE => Ok(Instruction::InsFX1E(x)),
                _ => unknown,
            },
            0x2 => Ok(Instruction::InsFX29(x)),
            0x3 => Ok(Instruction::InsFX33(x)),
            0x5 => Ok(Instruction::InsFX55(x)),
            0x6 => Ok(Instruction::InsFX65(x)),
            _ => unknown,
        },
        _ => unknown,
    }
}

impl Instruction {
    /// Every operand fits the field of the opcode that it is taken from: a
    /// register index or a row count is below 16, an address below 4096.
    pub open spec fn wf(&self) -> bool {
        match *self {
            Instruction::Ins00E0 => true,
            Instruction::Ins00EE => true,
            Instruction::Ins1NNN(nnn) => nnn < 0x1000,
            Instruction::Ins2NNN(nnn) => nnn < 0x1000,
            Instruction::Ins3XNN(x, _) => x < 16,
            Instruction::Ins4XNN(x, _) => x < 16,
            Instruction::Ins5XY0(x, y) => x < 16 && y < 16,
            Instruction::Ins6XNN(x, _) => x < 16,
            Instruction::Ins7XNN(x, _) => x < 16,
            Instruction::Ins8XY0(x, y) => x < 16 && y < 16,
            Instruction::Ins8XY1(x, y) => x < 16 && y < 16,
            Instruction::Ins8XY2(x, y) => x < 16 && y < 16,
            Instruction::Ins8XY3(x, y) => x < 16 && y < 16,
            Instruction::Ins8XY4(x, y) => x < 16 && y < 16,
            Instruction::Ins8XY5(x, y) => x < 16 && y < 16,
            Instruction::Ins8XY6(x, y) => x < 16 && y < 16,
            Instruction::Ins8XY7(x, y) => x < 16 && y < 16,
            Instruction::Ins8XYE(x, y) => x < 16 && y < 16,
            Instruction::Ins9XY0(x, y) => x < 16 && y < 16,
            Instruction::InsANNN(nnn) => nnn < 0x1000,
            Instruction::InsBNNN(nnn) => nnn < 0x1000,
            Instruction::InsCXNN(x, _) => x < 16,
            Instruction::InsDXYN(x, y, n) => x < 16 && y < 16 && n < 16,
            Instruction::InsEX9E(x) => x < 16,
            Instruction::InsEXA1(x) => x < 16,
            Instruction::InsFX07(x) => x < 16,
            Instruction::InsFX0A(x) => x < 16,
            Instruction::InsFX15(x) => x < 16,
            Instruction::InsFX18(x) => x < 16,
            Instruction::InsFX1E(x) => x < 16,
            Instruction::InsFX29(x) => x < 16,
            Instruction::InsFX33(x) => x < 16,
            Instruction::InsFX55(x) => x < 16,
            Instruction::InsFX65(x) => x < 16,
        }
    }
}

/// The opcode that spells `instruction`: the digits of the variant's name,
/// with the operands in the places of the letters.
pub open spec fn opcode_of(instruction: Instruction) -> u16 {
    match instruction {
        Instruction::Ins00E0 => 0x00E0,
        Instruction::Ins00EE => 0x00EE,
        Instruction::Ins1NNN(nnn) => (0x1000 + nnn) as u16,
        Instruction::Ins2NNN(nnn) => (0x2000 + nnn) as u16,
        Instruction::Ins3XNN(x, nn) => (0x3000 + x * 0x100 + nn) as u16,
        Instruction::Ins4XNN(x, nn) => (0x4000 + x * 0x100 + nn) as u16,
        Instruction::Ins5XY0(x, y) => (0x5000 + x * 0x100 + y * 0x10) as u16,
        Instruction::Ins6XNN(x, nn) => (0x6000 + x * 0x100 + nn) as u16,
        Instruction::Ins7XNN(x, nn) => (0x7000 + x * 0x100 + nn) as u16,
        Instruction::Ins8XY0(x, y) => (0x8000 + x * 0x100 + y * 0x10) as u16,
        Instruction::Ins8XY1(x, y) => (0x8001 + x * 0x100 + y * 0x10) as u16,
        Instruction::Ins8XY2(x, y) => (0x8002 + x * 0x100 + y * 0x10) as u16,
        Instruction::Ins8XY3(x, y) => (0x8003 + x * 0x100 + y * 0x10) as u16,
        Instruction::Ins8XY4(x, y) => (0x8004 + x * 0x100 + y * 0x10) as u16,
        Instruction::Ins8XY5(x, y) => (0x8005 + x * 0x100 + y * 0x10) as u16,
        Instruction::Ins8XY6(x, y) => (0x8006 + x * 0x100 + y * 0x10) as u16,
        Instruction::Ins8XY7(x, y) => (0x8007 + x * 0x100 + y * 0x10) as u16,
        Instruction::Ins8XYE(x, y) => (0x800E + x * 0x100 + y * 0x10) as u16,
        Instruction::Ins9XY0(x, y) => (0x9000 + x * 0x100 + y * 0x10) as u16,
        Instruction::InsANNN(nnn) => (0xA000 + nnn) as u16,
        Instruction::InsBNNN(nnn) => (0xB000 + nnn) as u16,
        Instruction::InsCXNN(x, nn) => (0xC000 + x * 0x100 + nn) as u16,
        Instruction::InsDXYN(x, y, n) => (0xD000 + x * 0x100 + y * 0x10 + n) as u16,
        Instruction::InsEX9E(x) => (0xE09E + x * 0x100) as u16,
        Instruction::InsEXA1(x) => (0xE0A1 + x * 0x100) as u16,
        Instruction::InsFX07(x) => (0xF007 + x * 0x100) as u16,
        Instruction::InsFX0A(x) => (0xF00A + x * 0x100) as u16,
        Instruction::InsFX15(x) => (0xF015 + x * 0x100) as u16,
        Instruction::InsFX18(x) => (0xF018 + x * 0x100) as u16,
        Instruction::InsFX1E(x) => (0xF01E + x * 0x100) as u16,
        Instruction::InsFX29(x) => (0xF029 + x * 0x100) as u16,
        Instruction::InsFX33(x) => (0xF033 + x * 0x100) as u16,
        Instruction::InsFX55(x) => (0xF055 + x * 0x100) as u16,
        Instruction::InsFX65(x) => (0xF065 + x * 0x100) as u16,
    }
}

/// An opcode put together from four nibbles falls apart into the same
/// four.
proof fn nibbles_of_composed(a: u16, b: u16, c: u16, d: u16)
    by (bit_vector)
    requires
        a < 16,
        b < 16,
        c < 16,
        d < 16,
    ensures
        a * 0x1000 + b * 0x100 + c * 0x10 + d < 0x1_0000,
        (a * 0x1000 + b * 0x100 + c * 0x10 + d) / 0x1000 == a,
        (a * 0x1000 + b * 0x100 + c * 0x10 + d) / 0x100 % 0x10 == b,
        (a * 0x1000 + b * 0x100 + c * 0x10 + d) / 0x10 % 0x10 == c,
        (a * 0x1000 + b * 0x100 + c * 0x10 + d) % 0x10 == d,
        (a * 0x1000 + b * 0x100 + c * 0x10 + d) % 0x100 == c * 0x10 + d,
        (a * 0x1000 + b * 0x100 + c * 0x10 + d) % 0x1000 == b * 0x100 + c * 0x10 + d,
{
}

/// The fields of an opcode made of a family nibble and an address.
proof fn fields_of_address_form(family: u16, nnn: u16)
    requires
        family < 16,
        nnn < 0x1000,
    ensures
        nibble1((family * 0x1000 + nnn) as u16) == family,
        low_address((family * 0x1000 + nnn) as u16) == nnn,
{
    nibbles_of_composed(family, nnn / 0x100, nnn / 0x10 % 0x10, nnn % 0x10);
}

/// The fields of an opcode made of a family nibble, a register and a byte.
proof fn fields_of_immediate_form(family: u16, x: u8, nn: u8)
    requires
        family < 16,
        x < 16,
    ensures
        nibble1((family * 0x1000 + x * 0x100 + nn) as u16) == family,
        nibble2((family * 0x1000 + x * 0x100 + nn) as u16) == x,
        low_byte((family * 0x1000 + x * 0x100 + nn) as u16) == nn,
{
    nibbles_of_composed(family, x as u16, nn as u16 / 0x10, nn as u16 % 0x10);
}

/// The fields of an opcode made of four nibbles.
proof fn fields_of_register_form(family: u16, x: u8, y: u8, n: u8)
    requires
        family < 16,
        x < 16,
        y < 16,
        n < 16,
    ensures
        nibble1((family * 0x1000 + x * 0x100 + y * 0x10 + n) as u16) == family,
        nibble2((family * 0x1000 + x * 0x100 + y * 0x10 + n) as u16) == x,
        nibble3((family * 0x1000 + x * 0x100 + y * 0x10 + n) as u16) == y,
        nibble4((family * 0x1000 + x * 0x100 + y * 0x10 + n) as u16) == n,
{
    nibbles_of_composed(family, x as u16, y as u16, n as u16);
}

/// Every instruction whose operands fit their fields is what its own
/// opcode decodes to: every form is reached, from the opcode that its name
/// spells.
pub proof fn decode_inverts_opcode_of(instruction: Instruction)
    requires
        instruction.wf(),
    ensures
        decode(opcode_of(instruction)) == Ok::<Instruction, InstructionError>(instruction),
{
    match instruction {
        Instruction::Ins00E0 => fields_of_register_form(0x0, 0x0, 0xE, 0x0),
        Instruction::Ins00EE => fields_of_register_form(0x0, 0x0, 0xE, 0xE),
        Instruction::Ins1NNN(nnn) => fields_of_address_form(0x1, nnn),
        Instruction::Ins2NNN(nnn) => fields_of_address_form(0x2, nnn),
        Instruction::Ins3XNN(x, nn) => fields_of_immediate_form(0x3, x, nn),
        Instruction::Ins4XNN(x, nn) => fields_of_immediate_form(0x4, x, nn),
        Instruction::Ins5XY0(x, y) => fields_of_register_form(0x5, x, y, 0x0),
        Instruction::Ins6XNN(x, nn) => fields_of_immediate_form(0x6, x, nn),
        Instruction::Ins7XNN(x, nn) => fields_of_immediate_form(0x7, x, nn),
        Instruction::Ins8XY0(x, y) => fields_of_register_form(0x8, x, y, 0x0),
        Instruction::Ins8XY1(x, y) => fields_of_register_form(0x8, x, y, 0x1),
        Instruction::Ins8XY2(x, y) => fields_of_register_form(0x8, x, y, 0x2),
        Instruction::Ins8XY3(x, y) => fields_of_register_form(0x8, x, y, 0x3),
        Instruction::Ins8XY4(x, y) => fields_of_register_form(0x8, x, y, 0x4),
        Instruction::Ins8XY5(x, y) => fields_of_register_form(0x8, x, y, 0x5),
        Instruction::Ins8XY6(x, y) => fields_of_register_form(0x8, x, y, 0x6),
        Instruction::Ins8XY7(x, y) => fields_of_register_form(0x8, x, y, 0x7),
        Instruction::Ins8XYE(x, y) => fields_of_register_form(0x8, x, y, 0xE),
        Instruction::Ins9XY0(x, y) => fields_of_register_form(0x9, x, y, 0x0),
        Instruction::InsANNN(nnn) => fields_of_address_form(0xA, nnn),
        Instruction::InsBNNN(nnn) => fields_of_address_form(0xB, nnn),
        Instruction::InsCXNN(x, nn) => fields_of_immediate_form(0xC, x, nn),
        Instruction::InsDXYN(x, y, n) => fields_of_register_form(0xD, x, y, n),
        Instruction::InsEX9E(x) => fields_of_register_form(0xE, x, 0x9, 0xE),
        Instruction::InsEXA1(x) => fields_of_register_form(0xE, x, 0xA, 0x1),
        Instruction::InsFX07(x) => fields_of_register_form(0xF, x, 0x0, 0x7),
        Instruction::InsFX0A(x) => fields_of_register_form(0xF, x, 0x0, 0xA),
        Instruction::InsFX15(x) => fields_of_register_form(0xF, x, 0x1, 0x5),
        Instruction::InsFX18(x) => fields_of_register_form(0xF, x, 0x1, 0x8),
        Instruction::InsFX1E(x) => fields_of_register_form(0xF, x, 0x1, 0xE),
        Instruction::InsFX29(x) => fields_of_register_form(0xF, x, 0x2, 0x9),
        Instruction::InsFX33(x) => fields_of_register_form(0xF, x, 0x3, 0x3),
        Instruction::InsFX55(x) => fields_of_register_form(0xF, x, 0x5, 0x5),
        Instruction::InsFX65(x) => fields_of_register_form(0xF, x, 0x6, 0x5),
    }
}

/// Decoding is total: every opcode either decodes to an instruction whose
/// operands fit their fields, or is reported as unknown under its own value.
pub proof fn decode_is_total(opcode: u16)
    ensures
        match decode(opcode) {
            Ok(instruction) => instruction.wf(),
            Err(error) => error == InstructionError::UnknownOpcode(opcode),
        },
{
}

impl Instruction {
    /// Tells whether every operand fits its field.
    pub fn is_well_formed(&self) -> (valid: bool)
        ensures
            valid == self.wf(),
    {
        match *self {
            Instruction::Ins00E0 | Instruction::Ins00EE => true,
            Instruction::Ins1NNN(nnn)
            | Instruction::Ins2NNN(nnn)
            | Instruction::InsANNN(nnn)
            | Instruction::InsBNNN(nnn) => nnn < 0x1000,
            Instruction::Ins3XNN(x, _)
            | Instruction::Ins4XNN(x, _)
            | Instruction::Ins6XNN(x, _)
            | Instruction::Ins7XNN(x, _)
            | Instruction::InsCXNN(x, _) => x < 16,
            Instruction::Ins5XY0(x, y)
            | Instruction::Ins8XY0(x, y)
            | Instruction::Ins8XY1(x, y)
            | Instruction::Ins8XY2(x, y)
            | Instruction::Ins8XY3(x, y)
            | Instruction::Ins8XY4(x, y)
            | Instruction::Ins8XY5(x, y)
            | Instruction::Ins8XY6(x, y)
            | Instruction::Ins8XY7(x, y)
            | Instruction::Ins8XYE(x, y)
            | Instruction::Ins9XY0(x, y) => x < 16 && y < 16,
            Instruction::InsDXYN(x, y, n) => x < 16 && y < 16 && n < 16,
            Instruction::InsEX9E(x)
            | Instruction::InsEXA1(x)
            | Instruction::InsFX07(x)
            | Instruction::InsFX0A(x)
            | Instruction::InsFX15(x)
            | Instruction::InsFX18(x)
            | Instruction::InsFX1E(x)
            | Instruction::InsFX29(x)
            | Instruction::InsFX33(x)
            | Instruction::InsFX55(x)
            | Instruction::InsFX65(x) => x < 16,
        }
    }
}

/// Splits an opcode into its four nibbles, most significant first.
fn nibbles(opcode: u16) -> (parts: (u8, u8, u8, u8))
    ensures
        parts.0 == nibble1(opcode),
        parts.1 == nibble2(opcode),
        parts.2 == nibble3(opcode),
        parts.3 == nibble4(opcode),
{
    let nibble1 = ((opcode & 0xF000) >> 12) as u8;
    let nibble2 = ((opcode & 0x0F00) >> 8) as u8;
    let nibble3 = ((opcode & 0x00F0) >> 4) as u8;
    let nibble4 = (opcode & 0x000F) as u8;
    assert((opcode & 0xF000) >> 12 == opcode / 0x1000) by (bit_vector);
    assert((opcode & 0x0F00) >> 8 == opcode / 0x100 % 0x10) by (bit_vector);
    assert((opcode & 0x00F0) >> 4 == opcode / 0x10 % 0x10) by (bit_vector);
    assert(opcode & 0x000F == opcode % 0x10) by (bit_vector);
    (nibble1, nibble2, nibble3, nibble4)
}

impl TryFrom<u16> for Instruction {
    type Error = InstructionError;

    /// Decodes `opcode` by the table `decode`: the result is an instruction
    /// whose operands fit their fields, or the opcode, reported as unknown.
    fn try_from(opcode: u16) -> (decoded: Result<Instruction, InstructionError>)
        ensures
            decoded == decode(opcode),
            decoded matches Ok(instruction) ==> instruction.wf(),
            decoded matches Err(error) ==> error == InstructionError::UnknownOpcode(opcode),
    {
        proof {
            decode_is_total(opcode);
        }
        let (nibble1, nibble2, nibble3, nibble4) = nibbles(opcode);
        assert(opcode & 0x0FFF == opcode % 0x1000) by (bit_vector);
        assert(opcode & 0x00FF == opcode % 0x100) by (bit_vector);
        match nibble1 {
            0x0 => match nibble4 {
                0x0 => Ok(Instruction::Ins00E0),
                0xE => Ok(Instruction::Ins00EE),
                _ => Err(InstructionError::UnknownOpcode(opcode)),
            },
            0x1 => Ok(Instruction::Ins1NNN(opcode & 0x0FFF)),
            0x2 => Ok(Instruction::Ins2NNN(opcode & 0x0FFF)),
            0x3 => Ok(Instruction::Ins3XNN(nibble2, (opcode & 0x00FF) as u8)),
            0x4 => Ok(Instruction::Ins4XNN(nibble2, (opcode & 0x00FF) as u8)),
            0x5 => Ok(Instruction::Ins5XY0(nibble2, nibble3)),
            0x6 => Ok(Instruction::Ins6XNN(nibble2, (opcode & 0x00FF) as u8)),
            0x7 => Ok(Instruction::Ins7XNN(nibble2, (opcode & 0x00FF) as u8)),
            0x8 => match nibble4 {
                0x0 => Ok(Instruction::Ins8XY0(nibble2, nibble3)),
                0x1 => Ok(Instruction::Ins8XY1(nibble2, nibble3)),
                0x2 => Ok(Instruction::Ins8XY2(nibble2, nibble3)),
                0x3 => Ok(Instruction::Ins8XY3(nibble2, nibble3)),
                0x4 => Ok(Instruction::Ins8XY4(nibble2, nibble3)),
                0x5 => Ok(Instruction::Ins8XY5(nibble2, nibble3)),
                0x6 => Ok(Instruction::Ins8XY6(nibble2, nibble3)),
                0x7 => Ok(Instruction::Ins8XY7(nibble2, nibble3)),
                0xE => Ok(Instruction::Ins8XYE(nibble2, nibble3)),
                _ => Err(InstructionError::UnknownOpcode(opcode)),
            },
            0x9 => Ok(Instruction::Ins9XY0(nibble2, nibble3)),
            0xA => Ok(Instruction::InsANNN(opcode & 0x0FFF)),
            0xB => Ok(Instruction::InsBNNN(opcode & 0x0FFF)),
            0xC => Ok(Instruction::InsCXNN(nibble2, (opcode & 0x00FF) as u8)),
            0xD => Ok(Instruction::InsDXYN(nibble2, nibble3, nibble4)),
            0xE => match nibble3 {
                0x9 => Ok(Instruction::InsEX9E(nibble2)),
                0xA => Ok(Instruction::InsEXA1(nibble2)),
                _ => Err(InstructionError::UnknownOpcode(opcode)),
            },
            0xF => match nibble3 {
                0x0 => match nibble4 {
                    0x7 => Ok(Instruction::InsFX07(nibble2)),
                    0xA => Ok(Instruction::InsFX0A(nibble2)),
                    _ => Err(InstructionError::UnknownOpcode(opcode)),
                },
                0x1 => match nibble4 {
                    0x5 => Ok(Instruction::InsFX15(nibble2)),
                    0x8 => Ok(Instruction::InsFX18(nibble2)),
                    0xE => Ok(Instruction::InsFX1E(nibble2)),
                    _ => Err(InstructionError::UnknownOpcode(opcode)),
                },
                0x2 => Ok(Instruction::InsFX29(nibble2)),
                0x3 => Ok(Instruction::InsFX33(nibble2)),
                0x5 => Ok(Instruction::InsFX55(nibble2)),
                0x6 => Ok(Instruction::InsFX65(nibble2)),
                _ => Err(InstructionError::UnknownOpcode(opcode)),
            },
            _ => Err(InstructionError::UnknownOpcode(opcode)),
        }
    }
}

impl vstd::std_specs::convert::TryFromSpecImpl<u16> for Instruction {
    open spec fn obeys_try_from_spec() -> bool {
        true
    }

    open spec fn try_from_spec(opcode: u16) -> Result<Instruction, InstructionError> {
        decode(opcode)
    }
}

} // verus!
