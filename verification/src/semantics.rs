//! The meaning of the machine's instructions, stated over a mathematical
//! model of its state. The executable interpreter is proved against the
//! functions of this module.

use vstd::prelude::*;

use crate::error::ExecError;
use crate::globals::PROCESSOR_INTERNAL_PROGRAM_COUNTER_START;
use crate::instruction::{decode_spec, Instruction};
use crate::memory::{read_at, write_at, TOTAL_MEMORY_BYTES};
use crate::render_table::{blank_screen, TOTAL_RENDER_TABLE_SIZE};
use crate::sprite::{draw_sprite, sprite_collides};

verus! {

/// Number of general registers.
pub const REGISTERS_COUNT: usize = 16;

/// Number of keys of the keypad.
pub const KEYS_COUNT: usize = 16;

/// Number of bytes of one glyph of the built-in font.
pub const GLYPH_SIZE: u16 = 5;

/// The state of the processor as plain values.
#[verifier::ext_equal]
pub struct ProcessorModel {
    /// The registers V0 to VF.
    pub registers: Seq<u8>,
    /// For each key, whether it is held down.
    pub keys: Seq<bool>,
    /// The return addresses of the calls in progress, innermost last.
    pub stack: Seq<u16>,
    /// The index register I.
    pub index_register: u16,
    pub delay_timer: u8,
    pub sound_timer: u8,
    pub program_counter: u16,
    /// Whether the pixel grid changed since the host last painted it.
    pub draw_flag: bool,
}

/// The state of the whole machine as plain values.
#[verifier::ext_equal]
pub struct MachineModel {
    pub processor: ProcessorModel,
    /// The bytes of memory, by address.
    pub memory: Seq<u8>,
    /// The cells of the pixel grid, row by row.
    pub screen: Seq<bool>,
}

impl ProcessorModel {
    /// Whether the model has the shape of a processor: sixteen registers and
    /// sixteen keys.
    pub open spec fn wf(self) -> bool {
        self.registers.len() == REGISTERS_COUNT && self.keys.len() == KEYS_COUNT
    }

    /// The processor before its first instruction.
    pub open spec fn initial() -> ProcessorModel {
        ProcessorModel {
            registers: Seq::new(REGISTERS_COUNT as nat, |i: int| 0u8),
            keys: Seq::new(KEYS_COUNT as nat, |i: int| false),
            stack: Seq::empty(),
            index_register: 0,
            delay_timer: 0,
            sound_timer: 0,
            program_counter: PROCESSOR_INTERNAL_PROGRAM_COUNTER_START,
            draw_flag: false,
        }
    }

    /// The value of register `i`.
    pub open spec fn reg(self, i: u8) -> u8 {
        self.registers[i as int]
    }

    /// The processor with register `i` set to `value`.
    pub open spec fn set_reg(self, i: u8, value: u8) -> ProcessorModel {
        ProcessorModel { registers: self.registers.update(i as int, value), ..self }
    }

    /// The processor with the flag register VF set to 1 or 0.
    pub open spec fn set_flag(self, raised: bool) -> ProcessorModel {
        self.set_reg(0xF, if raised { 1u8 } else { 0u8 })
    }

    /// The registers after Vx = Vx + Vy: VF takes the carry, then Vx the sum
    /// modulo 256.
    pub open spec fn add_registers(self, x: u8, y: u8) -> ProcessorModel {
        let sum = self.reg(x) + self.reg(y);
        self.set_flag(sum > 0xFF).set_reg(x, (sum % 0x100) as u8)
    }

    /// The registers after Vx = Vx - Vy: VF tells whether Vx was the larger,
    /// then Vx takes the difference modulo 256.
    pub open spec fn subtract(self, x: u8, y: u8) -> ProcessorModel {
        let flagged = self.set_flag(self.reg(x) > self.reg(y));
        flagged.set_reg(x, ((flagged.reg(x) - flagged.reg(y)) % 0x100) as u8)
    }

    /// The registers after Vx = Vy - Vx: VF tells whether Vy was the larger,
    /// then Vx takes the difference modulo 256.
    pub open spec fn subtract_from(self, x: u8, y: u8) -> ProcessorModel {
        let flagged = self.set_flag(self.reg(y) > self.reg(x));
        flagged.set_reg(x, ((flagged.reg(y) - flagged.reg(x)) % 0x100) as u8)
    }

    /// The registers after Vx = Vx >> 1: VF takes the lowest bit of Vx, then
    /// Vx is halved.
    pub open spec fn shift_right(self, x: u8) -> ProcessorModel {
        let flagged = self.set_reg(0xF, self.reg(x) % 2);
        flagged.set_reg(x, flagged.reg(x) / 2)
    }

    /// The registers after Vx = Vx << 1: VF takes the highest bit of Vx, then
    /// Vx is doubled modulo 256.
    pub open spec fn shift_left(self, x: u8) -> ProcessorModel {
        let flagged = self.set_reg(0xF, self.reg(x) / 0x80);
        flagged.set_reg(x, ((flagged.reg(x) * 2) % 0x100) as u8)
    }

    /// The processor with the program counter moved on by `by`, modulo 2^16.
    pub open spec fn advance(self, by: int) -> ProcessorModel {
        ProcessorModel {
            program_counter: ((self.program_counter + by) % 0x1_0000) as u16,
            ..self
        }
    }

    /// The processor with the program counter moved past this instruction,
    /// and past the next one too where `skip` holds.
    pub open spec fn skip_if(self, skip: bool) -> ProcessorModel {
        self.advance(if skip { 4 } else { 2 })
    }

    /// Whether the key numbered `key` is held down. A number that names no
    /// key reads as not held down.
    pub open spec fn key_down(self, key: u8) -> bool {
        key < KEYS_COUNT && self.keys[key as int]
    }

    /// The processor after the key numbered `key` went down or up. A number
    /// that names no key changes nothing.
    pub open spec fn set_key(self, key: u8, is_down: bool) -> ProcessorModel {
        if key < KEYS_COUNT {
            ProcessorModel { keys: self.keys.update(key as int, is_down), ..self }
        } else {
            self
        }
    }

    /// The processor after one update of its timers: each timer that is not
    /// zero goes down by one.
    pub open spec fn tick_timers(self) -> ProcessorModel {
        ProcessorModel {
            delay_timer: if self.delay_timer > 0 {
                (self.delay_timer - 1) as u8
            } else {
                0
            },
            sound_timer: if self.sound_timer > 0 {
                (self.sound_timer - 1) as u8
            } else {
                0
            },
            ..self
        }
    }

    /// Whether an update of the timers asks the host to play the sound cue:
    /// it does when the sound timer goes down to exactly one.
    pub open spec fn sound_cue(self) -> bool {
        self.sound_timer == 2
    }
}

impl MachineModel {
    /// Whether the model has the shape of a machine: a well-formed
    /// processor, 4096 bytes of memory and 2048 cells.
    pub open spec fn wf(self) -> bool {
        &&& self.processor.wf()
        &&& self.memory.len() == TOTAL_MEMORY_BYTES
        &&& self.screen.len() == TOTAL_RENDER_TABLE_SIZE
    }

    /// The machine with its processor replaced by `processor`.
    pub open spec fn with_processor(self, processor: ProcessorModel) -> MachineModel {
        MachineModel { processor, ..self }
    }
}

/// The machine made of the three given parts.
pub open spec fn machine_of(
    processor: ProcessorModel,
    memory: Seq<u8>,
    screen: Seq<bool>,
) -> MachineModel {
    MachineModel { processor, memory, screen }
}

/// The number of the highest key among the first `upto` that is held down,
/// if any is.
pub open spec fn last_key_down(keys: Seq<bool>, upto: int) -> Option<u8>
    decreases upto,
{
    if upto <= 0 {
        None
    } else if keys[upto - 1] {
        Some((upto - 1) as u8)
    } else {
        last_key_down(keys, upto - 1)
    }
}

/// Memory after the three decimal digits of `value` were stored at `index`,
/// `index + 1` and `index + 2`, hundreds first.
pub open spec fn store_decimal(memory: Seq<u8>, index: int, value: u8) -> Seq<u8> {
    write_at(
        write_at(write_at(memory, index, value / 100), index + 1, (value % 100) / 10),
        index + 2,
        value % 10,
    )
}

/// Memory after the first `count` registers were stored from `index` on.
/// Registers that would land past the end of memory are not stored.
pub open spec fn store_registers(
    memory: Seq<u8>,
    index: int,
    registers: Seq<u8>,
    count: int,
) -> Seq<u8> {
    Seq::new(
        memory.len(),
        |addr: int|
            if index <= addr < index + count {
                registers[addr - index]
            } else {
                memory[addr]
            },
    )
}

/// The registers after the first `count` of them were filled from memory,
/// from `index` on. Addresses past the end of memory read as zero.
pub open spec fn load_registers(
    registers: Seq<u8>,
    memory: Seq<u8>,
    index: int,
    count: int,
) -> Seq<u8> {
    Seq::new(
        registers.len(),
        |i: int|
            if i < count {
                read_at(memory, index + i)
            } else {
                registers[i]
            },
    )
}

/// The error with which `instruction` is refused in state `m`, if it is.
pub open spec fn fault(m: MachineModel, instruction: Instruction) -> Option<ExecError> {
    match instruction {
        Instruction::Return => if m.processor.stack.len() == 0 {
            Some(ExecError::StackUnderflow)
        } else {
            None
        },
        _ => None,
    }
}

/// The state after `instruction` was executed in state `m`, where `random`
/// is the byte that the random source gave. A refused instruction leaves
/// the state as it was.
///
/// Each line follows the order in which the instruction reads and writes:
/// where the flag register VF is written before Vx, an instruction whose
/// `x` or `y` names VF works on the flag it has just written.
pub open spec fn execute(m: MachineModel, instruction: Instruction, random: u8) -> MachineModel {
    let p = m.processor;
    match instruction {
        Instruction::ClearScreen => MachineModel {
            processor: ProcessorModel { draw_flag: true, ..p }.advance(2),
            screen: blank_screen(),
            ..m
        },
        Instruction::Return => if p.stack.len() == 0 {
            m
        } else {
            m.with_processor(
                ProcessorModel {
                    stack: p.stack.drop_last(),
                    program_counter: p.stack.last(),
                    ..p
                }.advance(2),
            )
        },
        Instruction::Jump { addr } => m.with_processor(
            ProcessorModel { program_counter: addr, ..p },
        ),
        Instruction::Call { addr } => m.with_processor(
            ProcessorModel {
                stack: p.stack.push(p.program_counter),
                program_counter: addr,
                ..p
            },
        ),
        Instruction::SkipIfEqual { x, byte } => m.with_processor(p.skip_if(p.reg(x) == byte)),
        Instruction::SkipIfNotEqual { x, byte } => m.with_processor(p.skip_if(p.reg(x) != byte)),
        Instruction::SkipIfRegistersEqual { x, y } => m.with_processor(
            p.skip_if(p.reg(x) == p.reg(y)),
        ),
        Instruction::Load { x, byte } => m.with_processor(p.set_reg(x, byte).advance(2)),
        Instruction::AddByte { x, byte } => m.with_processor(
            p.set_reg(x, ((p.reg(x) + byte) % 0x100) as u8).advance(2),
        ),
        Instruction::Move { x, y } => m.with_processor(p.set_reg(x, p.reg(y)).advance(2)),
        Instruction::Or { x, y } => m.with_processor(
            p.set_reg(x, p.reg(x) | p.reg(y)).advance(2),
        ),
        Instruction::And { x, y } => m.with_processor(
            p.set_reg(x, p.reg(x) & p.reg(y)).advance(2),
        ),
        Instruction::Xor { x, y } => m.with_processor(
            p.set_reg(x, p.reg(x) ^ p.reg(y)).advance(2),
        ),
        Instruction::AddRegister { x, y } => m.with_processor(p.add_registers(x, y).advance(2)),
        Instruction::Subtract { x, y } => m.with_processor(p.subtract(x, y).advance(2)),
        Instruction::ShiftRight { x } => m.with_processor(p.shift_right(x).advance(2)),
        Instruction::SubtractFrom { x, y } => m.with_processor(p.subtract_from(x, y).advance(2)),
        Instruction::ShiftLeft { x } => m.with_processor(p.shift_left(x).advance(2)),
        Instruction::SkipIfRegistersDiffer { x, y } => m.with_processor(
            p.skip_if(p.reg(x) != p.reg(y)),
        ),
        Instruction::LoadIndex { addr } => m.with_processor(
            ProcessorModel { index_register: addr, ..p }.advance(2),
        ),
        Instruction::JumpOffset { addr } => m.with_processor(
            ProcessorModel {
                program_counter: ((p.reg(0) + addr) % 0x1_0000) as u16,
                ..p
            }.advance(2),
        ),
        Instruction::Random { x, byte } => m.with_processor(
            p.set_reg(x, random & byte).advance(2),
        ),
        Instruction::Draw { x, y, rows } => {
            let reset = p.set_flag(false);
            let ox = reset.reg(x) as int;
            let oy = reset.reg(y) as int;
            let index = p.index_register as int;
            let hit = sprite_collides(m.screen, m.memory, index, rows as int, ox, oy);
            MachineModel {
                processor: ProcessorModel { draw_flag: true, ..reset.set_flag(hit) }.advance(2),
                screen: draw_sprite(m.screen, m.memory, index, rows as int, ox, oy),
                ..m
            }
        },
        Instruction::SkipIfKeyDown { x } => m.with_processor(p.skip_if(p.key_down(p.reg(x)))),
        Instruction::SkipIfKeyUp { x } => m.with_processor(p.skip_if(!p.key_down(p.reg(x)))),
        Instruction::ReadDelay { x } => m.with_processor(p.set_reg(x, p.delay_timer).advance(2)),
        Instruction::WaitKey { x } => match last_key_down(p.keys, KEYS_COUNT as int) {
            Some(key) => m.with_processor(p.set_reg(x, key).advance(2)),
            None => m,
        },
        Instruction::SetDelay { x } => m.with_processor(
            ProcessorModel { delay_timer: p.reg(x), ..p }.advance(2),
        ),
        Instruction::SetSound { x } => m.with_processor(
            ProcessorModel { sound_timer: p.reg(x), ..p }.advance(2),
        ),
        Instruction::AddIndex { x } => m.with_processor(
            ProcessorModel {
                index_register: ((p.index_register + p.reg(x)) % 0x1_0000) as u16,
                ..p
            }.advance(2),
        ),
        Instruction::Glyph { x } => m.with_processor(
            ProcessorModel { index_register: (p.reg(x) * GLYPH_SIZE) as u16, ..p }.advance(2),
        ),
        Instruction::StoreDecimal { x } => MachineModel {
            processor: p.advance(2),
            memory: store_decimal(m.memory, p.index_register as int, p.reg(x)),
            ..m
        },
        Instruction::StoreRegisters { x } => MachineModel {
            processor: p.advance(2),
            memory: store_registers(m.memory, p.index_register as int, p.registers, x + 1),
            ..m
        },
        Instruction::LoadRegisters { x } => m.with_processor(
            ProcessorModel {
                registers: load_registers(p.registers, m.memory, p.index_register as int, x + 1),
                ..p
            }.advance(2),
        ),
    }
}

/// The error with which the instruction word `opcode` is refused in state
/// `m`, if it is: a word that stands for no instruction, or an instruction
/// that is refused.
pub open spec fn opcode_fault(m: MachineModel, opcode: u16) -> Option<ExecError> {
    match decode_spec(opcode) {
        Some(instruction) => fault(m, instruction),
        None => Some(ExecError::UnknownOpcode { opcode }),
    }
}

/// The state after the instruction word `opcode` was executed in state `m`.
pub open spec fn execute_opcode(m: MachineModel, opcode: u16, random: u8) -> MachineModel {
    match decode_spec(opcode) {
        Some(instruction) => execute(m, instruction, random),
        None => m,
    }
}

/// What executing an instruction returns: nothing on success, else the
/// error.
pub open spec fn report(failure: Option<ExecError>) -> Result<(), ExecError> {
    match failure {
        Some(error) => Err(error),
        None => Ok(()),
    }
}

/// The instruction word at the program counter: the byte there is its high
/// half, the byte after it its low half.
pub open spec fn fetch(processor: ProcessorModel, memory: Seq<u8>) -> u16 {
    (read_at(memory, processor.program_counter as int) * 0x100 + read_at(
        memory,
        processor.program_counter + 1,
    )) as u16
}

} // verus!
