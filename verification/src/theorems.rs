//! What holds of the instruction table for every state of the machine.

use vstd::prelude::*;

use crate::globals::{CHIP8_SCREEN_HEIGHT, CHIP8_SCREEN_WIDTH};
use crate::error::ExecError;
use crate::instruction::{decode_spec, Instruction};
use crate::memory::{read_at, TOTAL_MEMORY_BYTES};
use crate::render_table::{cell_index, pixel_at, TOTAL_RENDER_TABLE_SIZE};
use crate::semantics::{
    execute,
    execute_opcode,
    fault,
    fetch,
    last_key_down,
    opcode_fault,
    MachineModel,
    ProcessorModel,
    KEYS_COUNT,
};
use crate::sprite::{lemma_target_covered, sprite_bit, sprite_collides, sprite_covers, target_cell};

verus! {

/// By how much `instruction` moves the program counter of processor `p`
/// forward, where it moves it by a fixed step: 4 for a conditional skip
/// whose condition holds, 0 for a wait that finds no key down, 2 for every
/// other instruction that neither jumps, calls nor returns. `None` for the
/// instructions that assign the program counter.
pub open spec fn program_counter_step(p: ProcessorModel, instruction: Instruction) -> Option<int> {
    match instruction {
        Instruction::Return
        | Instruction::Jump { .. }
        | Instruction::Call { .. }
        | Instruction::JumpOffset { .. } => None,
        Instruction::SkipIfEqual { x, byte } => Some(if p.reg(x) == byte { 4 } else { 2 }),
        Instruction::SkipIfNotEqual { x, byte } => Some(if p.reg(x) != byte { 4 } else { 2 }),
        Instruction::SkipIfRegistersEqual { x, y } => Some(
            if p.reg(x) == p.reg(y) { 4 } else { 2 },
        ),
        Instruction::SkipIfRegistersDiffer { x, y } => Some(
            if p.reg(x) != p.reg(y) { 4 } else { 2 },
        ),
        Instruction::SkipIfKeyDown { x } => Some(if p.key_down(p.reg(x)) { 4 } else { 2 }),
        Instruction::SkipIfKeyUp { x } => Some(if !p.key_down(p.reg(x)) { 4 } else { 2 }),
        Instruction::WaitKey { .. } => Some(
            if last_key_down(p.keys, KEYS_COUNT as int).is_some() { 2 } else { 0 },
        ),
        _ => Some(2),
    }
}

/// Whether the sprite of `rows` rows stored at `index` has a set bit.
pub open spec fn sprite_has_bit(memory: Seq<u8>, index: int, rows: int) -> bool {
    exists|row: int, column: int|
        0 <= row < rows && 0 <= column < 8 && #[trigger] sprite_bit(
            read_at(memory, index + row),
            column,
        )
}

/// Executing an instruction leaves the machine with the shape of a machine.
pub proof fn lemma_execute_wf(m: MachineModel, instruction: Instruction, random: u8)
    requires
        m.wf(),
        instruction.wf(),
    ensures
        execute(m, instruction, random).wf(),
{
}

/// The key that a wait finds is held down and no key above it is; a wait
/// finds none only where no key is held down.
pub proof fn lemma_last_key_down(keys: Seq<bool>, upto: int)
    requires
        0 <= upto <= KEYS_COUNT,
    ensures
        match last_key_down(keys, upto) {
            Some(key) => key < upto && keys[key as int] && forall|other: int|
                key < other < upto ==> !keys[other],
            None => forall|other: int| 0 <= other < upto ==> !keys[other],
        },
    decreases upto,
{
    if upto > 0 && !keys[upto - 1] {
        lemma_last_key_down(keys, upto - 1);
    }
}

/// The clear instruction is never refused; after it every cell of the grid
/// reads unlit and the draw flag is set.
pub proof fn lemma_clear_screen(m: MachineModel, random: u8)
    ensures
        decode_spec(0x00E0) == Some(Instruction::ClearScreen),
        opcode_fault(m, 0x00E0) is None,
        execute_opcode(m, 0x00E0, random).processor.draw_flag,
        forall|x: int, y: int| !pixel_at(execute_opcode(m, 0x00E0, random).screen, x, y),
{
    let after = execute_opcode(m, 0x00E0, random);
    assert forall|x: int, y: int| !pixel_at(after.screen, x, y) by {
        if 0 <= x < CHIP8_SCREEN_WIDTH && 0 <= y < CHIP8_SCREEN_HEIGHT {
            assert(0 <= cell_index(x, y) < TOTAL_RENDER_TABLE_SIZE);
        }
    }
}

/// An instruction that neither jumps, calls nor returns moves the program
/// counter forward by exactly its step: 2, or 4 for a conditional skip whose
/// condition holds. This is stated for the states in which the program
/// counter can move that far without passing the end of its sixteen bits.
pub proof fn lemma_program_counter_step(m: MachineModel, instruction: Instruction, random: u8)
    requires
        program_counter_step(m.processor, instruction) matches Some(step)
            && m.processor.program_counter + step <= 0xFFFF,
    ensures
        program_counter_step(m.processor, instruction) matches Some(step) && execute(
            m,
            instruction,
            random,
        ).processor.program_counter == m.processor.program_counter + step,
{
}

/// With the program counter beyond the end of memory the machine fetches
/// the zero word, which stands for no instruction: the step is refused.
pub proof fn lemma_fetch_beyond_memory(m: MachineModel)
    requires
        m.wf(),
        m.processor.program_counter >= TOTAL_MEMORY_BYTES,
    ensures
        fetch(m.processor, m.memory) == 0,
        opcode_fault(m, fetch(m.processor, m.memory)) == Some(
            ExecError::UnknownOpcode { opcode: 0 },
        ),
{
}

/// Where the machine fetches and executes an instruction that is not
/// refused and that neither jumps, calls nor returns, the program counter
/// moves forward by exactly its step. No state is left out: an instruction
/// fetched from beyond the end of memory is refused.
pub proof fn lemma_fetched_program_counter_step(m: MachineModel, random: u8)
    requires
        m.wf(),
        opcode_fault(m, fetch(m.processor, m.memory)) is None,
        decode_spec(fetch(m.processor, m.memory)) matches Some(instruction)
            && program_counter_step(m.processor, instruction) is Some,
    ensures
        decode_spec(fetch(m.processor, m.memory)) matches Some(instruction)
            && program_counter_step(m.processor, instruction) matches Some(step)
            && execute_opcode(
            m,
            fetch(m.processor, m.memory),
            random,
        ).processor.program_counter == m.processor.program_counter + step,
{
    if m.processor.program_counter >= TOTAL_MEMORY_BYTES {
        lemma_fetch_beyond_memory(m);
    }
}

/// A random instruction whose mask is zero sets Vx to zero, whatever byte
/// the random source gives.
pub proof fn lemma_random_mask_zero(m: MachineModel, x: u8, random: u8)
    requires
        m.wf(),
        x < 16,
    ensures
        fault(m, Instruction::Random { x, byte: 0 }) is None,
        execute(m, Instruction::Random { x, byte: 0 }, random).processor.reg(x) == 0,
{
    assert(random & 0 == 0) by (bit_vector);
}

/// Only the random instruction depends on the byte of the random source.
pub proof fn lemma_random_only(m: MachineModel, instruction: Instruction, a: u8, b: u8)
    requires
        !(instruction is Random),
    ensures
        execute(m, instruction, a) == execute(m, instruction, b),
{
}

/// Drawing the same sprite twice at the same place restores the grid.
/// Where the first draw lands on unlit cells only, it reports no collision
/// and lights every cell under a set bit; the second draw switches those
/// cells off again and, where the sprite has a set bit, reports a
/// collision.
pub proof fn lemma_draw_twice(m: MachineModel, x: u8, y: u8, rows: u8, random: u8)
    requires
        m.wf(),
        (Instruction::Draw { x, y, rows }).wf(),
    ensures
        ({
            let draw = Instruction::Draw { x, y, rows };
            let first = execute(m, draw, random);
            let second = execute(first, draw, random);
            let index = m.processor.index_register as int;
            let ox = m.processor.set_flag(false).reg(x) as int;
            let oy = m.processor.set_flag(false).reg(y) as int;
            &&& second.screen == m.screen
            &&& (forall|cell: int|
                0 <= cell < TOTAL_RENDER_TABLE_SIZE && #[trigger] sprite_covers(
                    m.memory,
                    index,
                    rows as int,
                    ox,
                    oy,
                    cell,
                ) ==> !m.screen[cell]) ==> {
                &&& first.processor.reg(0xF) == 0
                &&& forall|cell: int|
                    0 <= cell < TOTAL_RENDER_TABLE_SIZE && #[trigger] sprite_covers(
                        m.memory,
                        index,
                        rows as int,
                        ox,
                        oy,
                        cell,
                    ) ==> first.screen[cell] && !second.screen[cell]
                &&& sprite_has_bit(m.memory, index, rows as int) ==> second.processor.reg(0xF)
                    == 1
            }
        }),
{
    let draw = Instruction::Draw { x, y, rows };
    let first = execute(m, draw, random);
    let second = execute(first, draw, random);
    let index = m.processor.index_register as int;
    let ox = m.processor.set_flag(false).reg(x) as int;
    let oy = m.processor.set_flag(false).reg(y) as int;
    assert(first.processor.set_flag(false).registers =~= m.processor.set_flag(false).registers);
    assert(second.screen =~= m.screen);
    if forall|cell: int|
        0 <= cell < TOTAL_RENDER_TABLE_SIZE && #[trigger] sprite_covers(
            m.memory,
            index,
            rows as int,
            ox,
            oy,
            cell,
        ) ==> !m.screen[cell] {
        assert(!sprite_collides(m.screen, m.memory, index, rows as int, ox, oy));
        if sprite_has_bit(m.memory, index, rows as int) {
            let (row, column) = choose|row: int, column: int|
                0 <= row < rows && 0 <= column < 8 && #[trigger] sprite_bit(
                    read_at(m.memory, index + row),
                    column,
                );
            let cell = target_cell(ox, oy, row, column);
            lemma_target_covered(m.memory, index, rows as int, ox, oy, row, column);
            assert(sprite_covers(m.memory, index, rows as int, ox, oy, cell));
            assert(first.screen[cell]);
            assert(sprite_collides(first.screen, first.memory, index, rows as int, ox, oy));
        }
    }
}

} // verus!
