use vstd::prelude::*;

verus! {

/// One instruction of the machine, with its operands taken apart.
///
/// `x` and `y` select one of the sixteen registers V0 to VF, `byte` is an
/// eight-bit immediate, `addr` a twelve-bit address and `rows` a four-bit
/// count.
#[derive(Clone, Copy, Debug, PartialEq, Eq, Structural)]
pub enum Instruction {
    /// `00E0`: switch every pixel off.
    ClearScreen,
    /// `00EE`: return from a subroutine.
    Return,
    /// `1nnn`: continue at `addr`.
    Jump { addr: u16 },
    /// `2nnn`: call the subroutine at `addr`.
    Call { addr: u16 },
    /// `3xnn`: skip the next instruction if Vx equals `byte`.
    SkipIfEqual { x: u8, byte: u8 },
    /// `4xnn`: skip the next instruction if Vx differs from `byte`.
    SkipIfNotEqual { x: u8, byte: u8 },
    /// `5xy0`: skip the next instruction if Vx equals Vy.
    SkipIfRegistersEqual { x: u8, y: u8 },
    /// `6xnn`: Vx = `byte`.
    Load { x: u8, byte: u8 },
    /// `7xnn`: Vx = Vx + `byte`, modulo 256.
    AddByte { x: u8, byte: u8 },
    /// `8xy0`: Vx = Vy.
    Move { x: u8, y: u8 },
    /// `8xy1`: Vx = Vx OR Vy.
    Or { x: u8, y: u8 },
    /// `8xy2`: Vx = Vx AND Vy.
    And { x: u8, y: u8 },
    /// `8xy3`: Vx = Vx XOR Vy.
    Xor { x: u8, y: u8 },
    /// `8xy4`: Vx = Vx + Vy, with the carry in VF.
    AddRegister { x: u8, y: u8 },
    /// `8xy5`: Vx = Vx - Vy, with VF telling whether Vx was the larger.
    Subtract { x: u8, y: u8 },
    /// `8xy6`: Vx = Vx >> 1, with the bit shifted out in VF.
    ShiftRight { x: u8 },
    /// `8xy7`: Vx = Vy - Vx, with VF telling whether Vy was the larger.
    SubtractFrom { x: u8, y: u8 },
    /// `8xyE`: Vx = Vx << 1, with the bit shifted out in VF.
    ShiftLeft { x: u8 },
    /// `9xy0`: skip the next instruction if Vx differs from Vy.
    SkipIfRegistersDiffer { x: u8, y: u8 },
    /// `Annn`: I = `addr`.
    LoadIndex { addr: u16 },
    /// `Bnnn`: continue at V0 + `addr`.
    JumpOffset { addr: u16 },
    /// `Cxnn`: Vx = a random byte AND `byte`.
    Random { x: u8, byte: u8 },
    /// `Dxyn`: draw the sprite of `rows` rows stored at I, at (Vx, Vy).
    Draw { x: u8, y: u8, rows: u8 },
    /// `Ex9E`: skip the next instruction if the key named by Vx is down.
    SkipIfKeyDown { x: u8 },
    /// `ExA1`: skip the next instruction if the key named by Vx is up.
    SkipIfKeyUp { x: u8 },
    /// `Fx07`: Vx = delay timer.
    ReadDelay { x: u8 },
    /// `Fx0A`: wait until a key is down and store its number in Vx.
    WaitKey { x: u8 },
    /// `Fx15`: delay timer = Vx.
    SetDelay { x: u8 },
    /// `Fx18`: sound timer = Vx.
    SetSound { x: u8 },
    /// `Fx1E`: I = I + Vx.
    AddIndex { x: u8 },
    /// `Fx29`: I = address of the glyph for the digit in Vx.
    Glyph { x: u8 },
    /// `Fx33`: store the three decimal digits of Vx at I, I+1 and I+2.
    StoreDecimal { x: u8 },
    /// `Fx55`: store V0 to Vx in memory, starting at I.
    StoreRegisters { x: u8 },
    /// `Fx65`: fill V0 to Vx from memory, starting at I.
    LoadRegisters { x: u8 },
}

impl Instruction {
    /// Whether every operand lies in the range its field of an instruction
    /// word can hold.
    pub open spec fn wf(self) -> bool {
        match self {
            Instruction::ClearScreen | Instruction::Return => true,
            Instruction::Jump { addr }
            | Instruction::Call { addr }
            | Instruction::LoadIndex { addr }
            | Instruction::JumpOffset { addr } => addr < 0x1000,
            Instruction::SkipIfEqual { x, .. }
            | Instruction::SkipIfNotEqual { x, .. }
            | Instruction::Load { x, .. }
            | Instruction::AddByte { x, .. }
            | Instruction::Random { x, .. }
            | Instruction::ShiftRight { x }
            | Instruction::ShiftLeft { x }
            | Instruction::SkipIfKeyDown { x }
            | Instruction::SkipIfKeyUp { x }
            | Instruction::ReadDelay { x }
            | Instruction::WaitKey { x }
            | Instruction::SetDelay { x }
            | Instruction::SetSound { x }
            | Instruction::AddIndex { x }
            | Instruction::Glyph { x }
            | Instruction::StoreDecimal { x }
            | Instruction::StoreRegisters { x }
            | Instruction::LoadRegisters { x } => x < 16,
            Instruction::SkipIfRegistersEqual { x, y }
            | Instruction::Move { x, y }
            | Instruction::Or { x, y }
            | Instruction::And { x, y }
            | Instruction::Xor { x, y }
            | Instruction::AddRegister { x, y }
            | Instruction::Subtract { x, y }
            | Instruction::SubtractFrom { x, y }
            | Instruction::SkipIfRegistersDiffer { x, y } => x < 16 && y < 16,
            Instruction::Draw { x, y, rows } => x < 16 && y < 16 && rows < 16,
        }
    }
}

/// The opcode class: the high nibble of the instruction word.
pub open spec fn field_class(opcode: u16) -> int {
    opcode as int / 0x1000
}

/// The address operand: the low twelve bits of the instruction word.
pub open spec fn field_nnn(opcode: u16) -> u16 {
    (opcode as int % 0x1000) as u16
}

/// The eight-bit immediate: the low byte of the instruction word.
pub open spec fn field_nn(opcode: u16) -> u8 {
    (opcode as int % 0x100) as u8
}

/// The four-bit immediate: the low nibble of the instruction word.
pub open spec fn field_n(opcode: u16) -> u8 {
    (opcode as int % 0x10) as u8
}

/// The first register selector: bits 8 to 11 of the instruction word.
pub open spec fn field_x(opcode: u16) -> u8 {
    (opcode as int / 0x100 % 0x10) as u8
}

/// The second register selector: bits 4 to 7 of the instruction word.
pub open spec fn field_y(opcode: u16) -> u8 {
    (opcode as int / 0x10 % 0x10) as u8
}

/// The instruction that the word `opcode` stands for, or `None` where it
/// matches no pattern of the instruction table.
pub open spec fn decode_spec(opcode: u16) -> Option<Instruction> {
    let addr = field_nnn(opcode);
    let byte = field_nn(opcode);
    let n = field_n(opcode);
    let x = field_x(opcode);
    let y = field_y(opcode);
    let class = field_class(opcode);
    if class == 0x0 {
        if opcode == 0x00E0 {
            Some(Instruction::ClearScreen)
        } else if opcode == 0x00EE {
            Some(Instruction::Return)
        } else {
            None
        }
    } else if class == 0x1 {
        Some(Instruction::Jump { addr })
    } else if class == 0x2 {
        Some(Instruction::Call { addr })
    } else if class == 0x3 {
        Some(Instruction::SkipIfEqual { x, byte })
    } else if class == 0x4 {
        Some(Instruction::SkipIfNotEqual { x, byte })
    } else if class == 0x5 {
        if n == 0x0 {
            Some(Instruction::SkipIfRegistersEqual { x, y })
        } else {
            None
        }
    } else if class == 0x6 {
        Some(Instruction::Load { x, byte })
    } else if class == 0x7 {
        Some(Instruction::AddByte { x, byte })
    } else if class == 0x8 {
        if n == 0x0 {
            Some(Instruction::Move { x, y })
        } else if n == 0x1 {
            Some(Instruction::Or { x, y })
        } else if n == 0x2 {
            Some(Instruction::And { x, y })
        } else if n == 0x3 {
            Some(Instruction::Xor { x, y })
        } else if n == 0x4 {
            Some(Instruction::AddRegister { x, y })
        } else if n == 0x5 {
            Some(Instruction::Subtract { x, y })
        } else if n == 0x6 {
            Some(Instruction::ShiftRight { x })
        } else if n == 0x7 {
            Some(Instruction::SubtractFrom { x, y })
        } else if n == 0xE {
            Some(Instruction::ShiftLeft { x })
        } else {
            None
        }
    } else if class == 0x9 {
        if n == 0x0 {
            Some(Instruction::SkipIfRegistersDiffer { x, y })
        } else {
            None
        }
    } else if class == 0xA {
        Some(Instruction::LoadIndex { addr })
    } else if class == 0xB {
        Some(Instruction::JumpOffset { addr })
    } else if class == 0xC {
        Some(Instruction::Random { x, byte })
    } else if class == 0xD {
        Some(Instruction::Draw { x, y, rows: n })
    } else if class == 0xE {
        if byte == 0x9E {
            Some(Instruction::SkipIfKeyDown { x })
        } else if byte == 0xA1 {
            Some(Instruction::SkipIfKeyUp { x })
        } else {
            None
        }
    } else {
        if byte == 0x07 {
            Some(Instruction::ReadDelay { x })
        } else if byte == 0x0A {
            Some(Instruction::WaitKey { x })
        } else if byte == 0x15 {
            Some(Instruction::SetDelay { x })
        } else if byte == 0x18 {
            Some(Instruction::SetSound { x })
        } else if byte == 0x1E {
            Some(Instruction::AddIndex { x })
        } else if byte == 0x29 {
            Some(Instruction::Glyph { x })
        } else if byte == 0x33 {
            Some(Instruction::StoreDecimal { x })
        } else if byte == 0x55 {
            Some(Instruction::StoreRegisters { x })
        } else if byte == 0x65 {
            Some(Instruction::LoadRegisters { x })
        } else {
            None
        }
    }
}

/// Every instruction that a word decodes to has its operands in range.
pub proof fn lemma_decode_wf(opcode: u16)
    ensures
        decode_spec(opcode) matches Some(instruction) ==> instruction.wf(),
{
}

/// Relates the masks and shifts that take an instruction word apart to the
/// arithmetic by which its fields are defined.
proof fn lemma_fields(opcode: u16)
    ensures
        opcode & 0x0FFF == field_nnn(opcode),
        opcode & 0x00FF == field_nn(opcode),
        opcode & 0x000F == field_n(opcode),
        (opcode & 0x0F00) >> 8 == field_x(opcode),
        (opcode & 0x00F0) >> 4 == field_y(opcode),
        opcode & 0xF000 == field_class(opcode) * 0x1000,
{
    assert(opcode & 0x0FFF == opcode % 0x1000 && opcode & 0x00FF == opcode % 0x100 && opcode
        & 0x000F == opcode % 0x10 && (opcode & 0x0F00) >> 8 == opcode / 0x100 % 0x10 && (opcode
        & 0x00F0) >> 4 == opcode / 0x10 % 0x10 && opcode & 0xF000 == (opcode / 0x1000) * 0x1000)
        by (bit_vector);
}

impl Instruction {
    /// Takes the instruction word `opcode` apart.
    pub fn decode(opcode: u16) -> (decoded: Option<Instruction>)
        ensures
            decoded == decode_spec(opcode),
            decoded matches Some(instruction) ==> instruction.wf(),
    {
        proof {
            lemma_fields(opcode);
        }
        let addr: u16 = opcode & 0x0FFF;
        let byte: u8 = (opcode & 0x00FF) as u8;
        let n: u8 = (opcode & 0x000F) as u8;
        let x: u8 = ((opcode & 0x0F00) >> 8) as u8;
        let y: u8 = ((opcode & 0x00F0) >> 4) as u8;
        match opcode & 0xF000 {
            0x0000 => match opcode {
                0x00E0 => Some(Instruction::ClearScreen),
                0x00EE => Some(Instruction::Return),
                _ => None,
            },
            0x1000 => Some(Instruction::Jump { addr }),
            0x2000 => Some(Instruction::Call { addr }),
            0x3000 => Some(Instruction::SkipIfEqual { x, byte }),
            0x4000 => Some(Instruction::SkipIfNotEqual { x, byte }),
            0x5000 => match n {
                0x0 => Some(Instruction::SkipIfRegistersEqual { x, y }),
                _ => None,
            },
            0x6000 => Some(Instruction::Load { x, byte }),
            0x7000 => Some(Instruction::AddByte { x, byte }),
            0x8000 => match n {
                0x0 => Some(Instruction::Move { x, y }),
                0x1 => Some(Instruction::Or { x, y }),
                0x2 => Some(Instruction::And { x, y }),
                0x3 => Some(Instruction::Xor { x, y }),
                0x4 => Some(Instruction::AddRegister { x, y }),
                0x5 => Some(Instruction::Subtract { x, y }),
                0x6 => Some(Instruction::ShiftRight { x }),
                0x7 => Some(Instruction::SubtractFrom { x, y }),
                0xE => Some(Instruction::ShiftLeft { x }),
                _ => None,
            },
            0x9000 => match n {
                0x0 => Some(Instruction::SkipIfRegistersDiffer { x, y }),
                _ => None,
            },
            0xA000 => Some(Instruction::LoadIndex { addr }),
            0xB000 => Some(Instruction::JumpOffset { addr }),
            0xC000 => Some(Instruction::Random { x, byte }),
            0xD000 => Some(Instruction::Draw { x, y, rows: n }),
            0xE000 => match byte {
                0x9E => Some(Instruction::SkipIfKeyDown { x }),
                0xA1 => Some(Instruction::SkipIfKeyUp { x }),
                _ => None,
            },
            _ => match byte {
                0x07 => Some(Instruction::ReadDelay { x }),
                0x0A => Some(Instruction::WaitKey { x }),
                0x15 => Some(Instruction::SetDelay { x }),
                0x18 => Some(Instruction::SetSound { x }),
                0x1E => Some(Instruction::AddIndex { x }),
                0x29 => Some(Instruction::Glyph { x }),
                0x33 => Some(Instruction::StoreDecimal { x }),
                0x55 => Some(Instruction::StoreRegisters { x }),
                0x65 => Some(Instruction::LoadRegisters { x }),
                _ => None,
            },
        }
    }
}

} // verus!
