use mch8::instruction::Instruction;

#[test]
fn decodes_every_pattern_of_the_table() {
    let cases = [
        (0x00E0u16, Instruction::ClearScreen),
        (0x00EE, Instruction::Return),
        (0x1ABC, Instruction::Jump { addr: 0xABC }),
        (0x2FFF, Instruction::Call { addr: 0xFFF }),
        (0x3A12, Instruction::SkipIfEqual { x: 0xA, byte: 0x12 }),
        (0x4B34, Instruction::SkipIfNotEqual { x: 0xB, byte: 0x34 }),
        (0x5C10, Instruction::SkipIfRegistersEqual { x: 0xC, y: 0x1 }),
        (0x6D56, Instruction::Load { x: 0xD, byte: 0x56 }),
        (0x7E78, Instruction::AddByte { x: 0xE, byte: 0x78 }),
        (0x8120, Instruction::Move { x: 1, y: 2 }),
        (0x8121, Instruction::Or { x: 1, y: 2 }),
        (0x8122, Instruction::And { x: 1, y: 2 }),
        (0x8123, Instruction::Xor { x: 1, y: 2 }),
        (0x8124, Instruction::AddRegister { x: 1, y: 2 }),
        (0x8125, Instruction::Subtract { x: 1, y: 2 }),
        (0x8126, Instruction::ShiftRight { x: 1 }),
        (0x8127, Instruction::SubtractFrom { x: 1, y: 2 }),
        (0x812E, Instruction::ShiftLeft { x: 1 }),
        (0x9340, Instruction::SkipIfRegistersDiffer { x: 3, y: 4 }),
        (0xA123, Instruction::LoadIndex { addr: 0x123 }),
        (0xB456, Instruction::JumpOffset { addr: 0x456 }),
        (0xC7F0, Instruction::Random { x: 7, byte: 0xF0 }),
        (0xD12F, Instruction::Draw { x: 1, y: 2, rows: 0xF }),
        (0xE59E, Instruction::SkipIfKeyDown { x: 5 }),
        (0xE5A1, Instruction::SkipIfKeyUp { x: 5 }),
        (0xF607, Instruction::ReadDelay { x: 6 }),
        (0xF60A, Instruction::WaitKey { x: 6 }),
        (0xF615, Instruction::SetDelay { x: 6 }),
        (0xF618, Instruction::SetSound { x: 6 }),
        (0xF61E, Instruction::AddIndex { x: 6 }),
        (0xF629, Instruction::Glyph { x: 6 }),
        (0xF633, Instruction::StoreDecimal { x: 6 }),
        (0xF655, Instruction::StoreRegisters { x: 6 }),
        (0xF665, Instruction::LoadRegisters { x: 6 }),
    ];
    for (opcode, instruction) in cases {
        assert_eq!(Instruction::decode(opcode), Some(instruction));
    }
}

#[test]
fn refuses_words_outside_the_table() {
    for opcode in [
        0x0000u16, 0x00E1, 0x00EF, 0x01E0, 0x0FEE, 0x5011, 0x500F, 0x8008, 0x812F, 0x8129, 0x9001,
        0x934F, 0xE000, 0xE59F, 0xE5A0, 0xF000, 0xF0FF, 0xF608, 0xF656, 0xF666,
    ] {
        assert_eq!(Instruction::decode(opcode), None);
    }
}

#[test]
fn decoding_counts_the_words_of_each_class() {
    let mut known = 0u32;
    for opcode in 0..=0xFFFFu16 {
        if Instruction::decode(opcode).is_some() {
            known += 1;
        }
    }
    // 2 words in class 0; 4096 in each of 1,2,3,4,6,7,A,B,C,D; 256 in each of
    // 5 and 9; 9 * 256 in class 8; 2 * 16 in class E; 9 * 16 in class F.
    assert_eq!(known, 2 + 10 * 4096 + 2 * 256 + 9 * 256 + 2 * 16 + 9 * 16);
}
