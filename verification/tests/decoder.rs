use rsc8_core::instruction::{Instruction, InstructionError};

fn decode(opcode: u16) -> Result<Instruction, InstructionError> {
    Instruction::try_from(opcode)
}

#[test]
fn every_opcode_decodes_or_is_reported_unknown() {
    let mut known: u32 = 0;
    for opcode in 0..=u16::MAX {
        match decode(opcode) {
            Ok(instruction) => {
                assert!(instruction.is_well_formed(), "opcode {:04x}", opcode);
                known += 1;
            }
            Err(error) => assert_eq!(error, InstructionError::UnknownOpcode(opcode)),
        }
    }
    // Families 1-7, 9-D decode everywhere: 12 * 4096. Family 0: two of
    // sixteen last nibbles. Family 8: nine of sixteen. Family E: two of
    // sixteen third nibbles. Family F: third nibbles 2, 3, 5, 6 with any
    // last nibble, third nibble 0 with two, third nibble 1 with three.
    let expected = 12 * 4096 + 2 * 256 + 9 * 256 + 2 * 256 + (4 * 16 + 2 + 3) * 16;
    assert_eq!(known, expected);
}

#[test]
fn decodes_the_screen_and_flow_instructions() {
    assert_eq!(decode(0x00E0), Ok(Instruction::Ins00E0));
    assert_eq!(decode(0x00EE), Ok(Instruction::Ins00EE));
    assert_eq!(decode(0x1ABC), Ok(Instruction::Ins1NNN(0xABC)));
    assert_eq!(decode(0x2FFF), Ok(Instruction::Ins2NNN(0xFFF)));
    assert_eq!(decode(0xA123), Ok(Instruction::InsANNN(0x123)));
    assert_eq!(decode(0xB000), Ok(Instruction::InsBNNN(0x000)));
}

#[test]
fn decodes_the_skip_and_immediate_instructions() {
    assert_eq!(decode(0x3A42), Ok(Instruction::Ins3XNN(0xA, 0x42)));
    assert_eq!(decode(0x4B00), Ok(Instruction::Ins4XNN(0xB, 0x00)));
    assert_eq!(decode(0x5120), Ok(Instruction::Ins5XY0(1, 2)));
    assert_eq!(decode(0x6CFF), Ok(Instruction::Ins6XNN(0xC, 0xFF)));
    assert_eq!(decode(0x7D01), Ok(Instruction::Ins7XNN(0xD, 0x01)));
    assert_eq!(decode(0x9EF0), Ok(Instruction::Ins9XY0(0xE, 0xF)));
    assert_eq!(decode(0xC37F), Ok(Instruction::InsCXNN(3, 0x7F)));
    assert_eq!(decode(0xD125), Ok(Instruction::InsDXYN(1, 2, 5)));
}

#[test]
fn decodes_the_register_instructions() {
    assert_eq!(decode(0x8120), Ok(Instruction::Ins8XY0(1, 2)));
    assert_eq!(decode(0x8121), Ok(Instruction::Ins8XY1(1, 2)));
    assert_eq!(decode(0x8122), Ok(Instruction::Ins8XY2(1, 2)));
    assert_eq!(decode(0x8123), Ok(Instruction::Ins8XY3(1, 2)));
    assert_eq!(decode(0x8124), Ok(Instruction::Ins8XY4(1, 2)));
    assert_eq!(decode(0x8125), Ok(Instruction::Ins8XY5(1, 2)));
    assert_eq!(decode(0x8126), Ok(Instruction::Ins8XY6(1, 2)));
    assert_eq!(decode(0x8127), Ok(Instruction::Ins8XY7(1, 2)));
    assert_eq!(decode(0x812E), Ok(Instruction::Ins8XYE(1, 2)));
}

#[test]
fn decodes_the_key_timer_and_memory_instructions() {
    assert_eq!(decode(0xE49E), Ok(Instruction::InsEX9E(4)));
    assert_eq!(decode(0xE4A1), Ok(Instruction::InsEXA1(4)));
    assert_eq!(decode(0xF507), Ok(Instruction::InsFX07(5)));
    assert_eq!(decode(0xF50A), Ok(Instruction::InsFX0A(5)));
    assert_eq!(decode(0xF515), Ok(Instruction::InsFX15(5)));
    assert_eq!(decode(0xF518), Ok(Instruction::InsFX18(5)));
    assert_eq!(decode(0xF51E), Ok(Instruction::InsFX1E(5)));
    assert_eq!(decode(0xF529), Ok(Instruction::InsFX29(5)));
    assert_eq!(decode(0xF533), Ok(Instruction::InsFX33(5)));
    assert_eq!(decode(0xF555), Ok(Instruction::InsFX55(5)));
    assert_eq!(decode(0xF565), Ok(Instruction::InsFX65(5)));
}

#[test]
fn reports_opcodes_outside_the_table() {
    assert_eq!(decode(0x0001), Err(InstructionError::UnknownOpcode(0x0001)));
    assert_eq!(decode(0x8128), Err(InstructionError::UnknownOpcode(0x8128)));
    assert_eq!(decode(0x812F), Err(InstructionError::UnknownOpcode(0x812F)));
    assert_eq!(decode(0xE000), Err(InstructionError::UnknownOpcode(0xE000)));
    assert_eq!(decode(0xF000), Err(InstructionError::UnknownOpcode(0xF000)));
    assert_eq!(decode(0xF01F), Err(InstructionError::UnknownOpcode(0xF01F)));
    assert_eq!(decode(0xF0FF), Err(InstructionError::UnknownOpcode(0xF0FF)));
}

#[test]
fn ignores_the_nibbles_that_select_nothing() {
    assert_eq!(decode(0x0120), Ok(Instruction::Ins00E0));
    assert_eq!(decode(0x0ABE), Ok(Instruction::Ins00EE));
    assert_eq!(decode(0x5127), Ok(Instruction::Ins5XY0(1, 2)));
    assert_eq!(decode(0x912F), Ok(Instruction::Ins9XY0(1, 2)));
    assert_eq!(decode(0xE790), Ok(Instruction::InsEX9E(7)));
    assert_eq!(decode(0xE7AF), Ok(Instruction::InsEXA1(7)));
    assert_eq!(decode(0xF720), Ok(Instruction::InsFX29(7)));
    assert_eq!(decode(0xF73F), Ok(Instruction::InsFX33(7)));
    assert_eq!(decode(0xF750), Ok(Instruction::InsFX55(7)));
    assert_eq!(decode(0xF76A), Ok(Instruction::InsFX65(7)));
}

#[test]
fn operands_must_fit_their_fields() {
    assert!(Instruction::Ins1NNN(0xFFF).is_well_formed());
    assert!(!Instruction::Ins1NNN(0x1000).is_well_formed());
    assert!(Instruction::Ins8XY4(15, 15).is_well_formed());
    assert!(!Instruction::Ins8XY4(16, 0).is_well_formed());
    assert!(!Instruction::Ins8XY4(0, 16).is_well_formed());
    assert!(Instruction::InsDXYN(0, 1, 15).is_well_formed());
    assert!(!Instruction::InsDXYN(0, 1, 16).is_well_formed());
    assert!(!Instruction::InsFX65(16).is_well_formed());
    assert!(Instruction::Ins6XNN(3, 0xFF).is_well_formed());
}

#[test]
fn errors_have_messages() {
    assert_eq!(InstructionError::UnknownOpcode(0x00AB).to_string(), "Unknown opcode: 00ab");
    assert_eq!(InstructionError::UnknownOpcode(0xF0FF).to_string(), "Unknown opcode: f0ff");
    assert_eq!(InstructionError::UnknownOpcode(0).to_string(), "Unknown opcode: 0000");
    assert_eq!(InstructionError::AddressOutOfRange.to_string(), "Address out of range");
    assert_eq!(InstructionError::StackOverflow.to_string(), "Stack overflow");
    assert_eq!(InstructionError::StackUnderflow.to_string(), "Stack underflow");
}
