use vstd::prelude::*;

use crate::error::{ExecError, LoadError};
use crate::globals::{PROCESSOR_INTERNAL_PROGRAM_COUNTER_START, TIMER_DIVISION_CLOCK};
use crate::instruction::{decode_spec, Instruction};
use crate::memory::{Memory, TOTAL_MEMORY_BYTES};
use crate::render_table::{blank_screen, pixel_at, RenderTable};
use crate::semantics::{
    execute_opcode,
    fetch,
    machine_of,
    opcode_fault,
    report,
    MachineModel,
    ProcessorModel,
};
use crate::virtual_processor::VirtualProcessor;

verus! {

/// Largest number of bytes of a program image: what lies between the load
/// address and the end of memory.
pub const MAX_ROM_PROGRAM_SIZE: usize = 3584;

/// Number of bytes of the built-in font.
pub const FONTSET_SIZE: usize = 80;

/// The built-in font: the sixteen hexadecimal digits, five bytes each.
pub const FONTSET: [u8; 80] = [
    0xF0, 0x90, 0x90, 0x90, 0xF0,  // 0
    0x20, 0x60, 0x20, 0x20, 0x70,  // 1
    0xF0, 0x10, 0xF0, 0x80, 0xF0,  // 2
    0xF0, 0x10, 0xF0, 0x10, 0xF0,  // 3
    0x90, 0x90, 0xF0, 0x10, 0x10,  // 4
    0xF0, 0x80, 0xF0, 0x10, 0xF0,  // 5
    0xF0, 0x80, 0xF0, 0x90, 0xF0,  // 6
    0xF0, 0x10, 0x20, 0x40, 0x40,  // 7
    0xF0, 0x90, 0xF0, 0x90, 0xF0,  // 8
    0xF0, 0x90, 0xF0, 0x10, 0xF0,  // 9
    0xF0, 0x90, 0xF0, 0x90, 0x90,  // A
    0xE0, 0x90, 0xE0, 0x90, 0xE0,  // B
    0xF0, 0x80, 0x80, 0x80, 0xF0,  // C
    0xE0, 0x90, 0x90, 0x90, 0xE0,  // D
    0xF0, 0x80, 0xF0, 0x80, 0xF0,  // E
    0xF0, 0x80, 0xF0, 0x80, 0x80,  // F
];

/// Memory after a program image was loaded: the font fills the first 80
/// addresses, the image lies from the load address on, and every other byte
/// is as it was.
pub open spec fn load_program(memory: Seq<u8>, program: Seq<u8>) -> Seq<u8> {
    Seq::new(
        memory.len(),
        |addr: int|
            if addr < FONTSET_SIZE {
                FONTSET@[addr]
            } else if PROCESSOR_INTERNAL_PROGRAM_COUNTER_START <= addr
                < PROCESSOR_INTERNAL_PROGRAM_COUNTER_START + program.len() {
                program[addr - PROCESSOR_INTERNAL_PROGRAM_COUNTER_START]
            } else {
                memory[addr]
            },
    )
}

/// The machine: a processor, its memory and its pixel grid, with the clock
/// that paces the timers.
pub struct VirtualMachine {
    virtual_processor: VirtualProcessor,
    memory: Memory,
    render_table: RenderTable,
    div_cycles: u8,
}

impl View for VirtualMachine {
    type V = MachineModel;

    closed spec fn view(&self) -> MachineModel {
        machine_of(self.virtual_processor@, self.memory@, self.render_table@)
    }
}

impl VirtualMachine {
    /// Number of instructions counted since the timers were last updated.
    pub closed spec fn cycles(&self) -> int {
        self.div_cycles as int
    }

    /// The view of every machine has the shape of a machine.
    pub proof fn lemma_wf(&self)
        ensures
            self@.wf(),
    {
        self.virtual_processor.lemma_wf();
        self.memory.lemma_size();
        self.render_table.lemma_size();
    }

    /// A machine with zeroed memory, a blank grid and a fresh processor.
    pub fn new() -> (machine: VirtualMachine)
        ensures
            machine@.processor == ProcessorModel::initial(),
            machine@.memory == Seq::new(TOTAL_MEMORY_BYTES as nat, |addr: int| 0u8),
            machine@.screen == blank_screen(),
            machine.cycles() == 0,
    {
        VirtualMachine {
            virtual_processor: VirtualProcessor::new(),
            memory: Memory::new(),
            render_table: RenderTable::new(),
            div_cycles: 0,
        }
    }

    /// The machine's processor.
    pub fn processor(&self) -> (processor: &VirtualProcessor)
        ensures
            processor@ == self@.processor,
    {
        &self.virtual_processor
    }

    /// The machine's memory.
    pub fn memory(&self) -> (memory: &Memory)
        ensures
            memory@ == self@.memory,
    {
        &self.memory
    }

    /// The machine's pixel grid.
    pub fn render_table(&self) -> (table: &RenderTable)
        ensures
            table@ == self@.screen,
    {
        &self.render_table
    }

    /// Writes the built-in font to the first 80 addresses.
    fn load_fontset(&mut self)
        ensures
            final(self)@ == (MachineModel {
                memory: Seq::new(
                    old(self)@.memory.len(),
                    |addr: int|
                        if addr < FONTSET_SIZE {
                            FONTSET@[addr]
                        } else {
                            old(self)@.memory[addr]
                        },
                ),
                ..old(self)@
            }),
            final(self).cycles() == old(self).cycles(),
    {
        proof {
            self.memory.lemma_size();
        }
        let mut i: u8 = 0;
        while i < 80
            invariant
                i <= 80,
                self.virtual_processor@ == old(self).virtual_processor@,
                self.render_table@ == old(self).render_table@,
                self.div_cycles == old(self).div_cycles,
                self.memory@ == Seq::new(
                    old(self)@.memory.len(),
                    |addr: int|
                        if addr < i {
                            FONTSET@[addr]
                        } else {
                            old(self)@.memory[addr]
                        },
                ),
            decreases 80 - i,
        {
            self.memory.write(i as u16, FONTSET[i as usize]);
            i += 1;
        }
    }

    /// Loads the program image `rom_buffer`: the font goes to the first 80
    /// addresses and the image to the load address. An image of more than
    /// 3584 bytes is refused, and the machine is left as it was.
    pub fn load_rom(&mut self, rom_buffer: &[u8]) -> (res: Result<(), LoadError>)
        ensures
            rom_buffer@.len() > MAX_ROM_PROGRAM_SIZE ==> res == Err::<(), LoadError>(
                LoadError::TooLarge,
            ) && final(self)@ == old(self)@,
            rom_buffer@.len() <= MAX_ROM_PROGRAM_SIZE ==> res == Ok::<(), LoadError>(())
                && final(self)@ == (MachineModel {
                memory: load_program(old(self)@.memory, rom_buffer@),
                ..old(self)@
            }),
            final(self).cycles() == old(self).cycles(),
    {
        let rom_buffer_len = rom_buffer.len();

        if rom_buffer_len > MAX_ROM_PROGRAM_SIZE {
            return Err(LoadError::TooLarge);
        }
        proof {
            self.memory.lemma_size();
        }
        self.load_fontset();  // Load fontset into memory before anything else.

        let ghost fonts = self.memory@;
        let mut byte_index: usize = 0;
        while byte_index < rom_buffer_len
            invariant
                byte_index <= rom_buffer_len == rom_buffer@.len() <= MAX_ROM_PROGRAM_SIZE,
                fonts.len() == TOTAL_MEMORY_BYTES,
                self.virtual_processor@ == old(self).virtual_processor@,
                self.render_table@ == old(self).render_table@,
                self.div_cycles == old(self).div_cycles,
                self.memory@ == Seq::new(
                    fonts.len(),
                    |addr: int|
                        if PROCESSOR_INTERNAL_PROGRAM_COUNTER_START <= addr
                            < PROCESSOR_INTERNAL_PROGRAM_COUNTER_START + byte_index {
                            rom_buffer@[addr - PROCESSOR_INTERNAL_PROGRAM_COUNTER_START]
                        } else {
                            fonts[addr]
                        },
                ),
            decreases rom_buffer_len - byte_index,
        {
            self.memory.write(
                PROCESSOR_INTERNAL_PROGRAM_COUNTER_START + byte_index as u16,
                rom_buffer[byte_index],
            );
            byte_index += 1;
        }

        Ok(())
    }

    /// Records that key `n` went down or up. A number above 15 names no key
    /// and is ignored.
    pub fn set_key(&mut self, n: u8, is_down: bool)
        ensures
            final(self)@ == old(self)@.with_processor(old(self)@.processor.set_key(n, is_down)),
            final(self).cycles() == old(self).cycles(),
    {
        self.virtual_processor.set_key(n, is_down);
    }

    /// Whether the grid changed since the host last painted it.
    pub fn screen_need_repaint(&self) -> (needed: bool)
        ensures
            needed == self@.processor.draw_flag,
    {
        self.virtual_processor.get_draw_flag()
    }

    /// Tells the machine that the host has painted the grid.
    pub fn disable_repaint(&mut self)
        ensures
            final(self)@ == old(self)@.with_processor(
                ProcessorModel { draw_flag: false, ..old(self)@.processor },
            ),
            final(self).cycles() == old(self).cycles(),
    {
        self.virtual_processor.reset_draw_flag();
    }

    /// Whether the cell `(x, y)` of the grid is lit; `false` for coordinates
    /// off the grid.
    pub fn is_pixel_switched_on(&self, x: u8, y: u8) -> (lit: bool)
        ensures
            lit == pixel_at(self@.screen, x as int, y as int),
    {
        self.render_table.is_pixel_switched_on(x, y)
    }

    /// Fetches the instruction word at the program counter and executes it.
    ///
    /// The state afterwards is the one that the instruction table gives for
    /// some byte of the random source, and for every byte where the word
    /// asks for none; a word that is refused leaves the machine as it was.
    pub fn execute_processor_instruction(&mut self) -> (res: Result<(), ExecError>)
        ensures
            res == report(
                opcode_fault(old(self)@, fetch(old(self)@.processor, old(self)@.memory)),
            ),
            exists|random: u8|
                final(self)@ == #[trigger] execute_opcode(
                    old(self)@,
                    fetch(old(self)@.processor, old(self)@.memory),
                    random,
                ),
            !(decode_spec(fetch(old(self)@.processor, old(self)@.memory)) matches Some(
                Instruction::Random { .. },
            )) ==> final(self)@ == execute_opcode(
                old(self)@,
                fetch(old(self)@.processor, old(self)@.memory),
                0,
            ),
            final(self).cycles() == old(self).cycles(),
    {
        let opcode = self.virtual_processor.fetch_next_opcode(&self.memory);
        self.virtual_processor.execute_instruction(
            opcode,
            &mut self.memory,
            &mut self.render_table,
        )
    }

    /// Counts both timers down by one where they are not zero. Returns
    /// whether the host is to play the sound cue.
    pub fn update_processor_timers(&mut self) -> (cue: bool)
        ensures
            final(self)@ == old(self)@.with_processor(old(self)@.processor.tick_timers()),
            cue == old(self)@.processor.sound_cue(),
            final(self).cycles() == old(self).cycles(),
    {
        self.virtual_processor.update_timers()
    }

    /// Counts one executed instruction. Every ninth call updates the timers
    /// and starts the count again; the calls between change nothing but the
    /// count. Returns whether the host is to play the sound cue.
    pub fn advance_timer_clock(&mut self) -> (cue: bool)
        ensures
            old(self).cycles() + 1 >= TIMER_DIVISION_CLOCK ==> final(self).cycles() == 0
                && final(self)@ == old(self)@.with_processor(old(self)@.processor.tick_timers())
                && cue == old(self)@.processor.sound_cue(),
            old(self).cycles() + 1 < TIMER_DIVISION_CLOCK ==> final(self).cycles() == old(
                self,
            ).cycles() + 1 && final(self)@ == old(self)@ && !cue,
    {
        if self.div_cycles >= TIMER_DIVISION_CLOCK - 1 {
            self.div_cycles = 0;
            self.update_processor_timers()
        } else {
            self.div_cycles += 1;
            false
        }
    }
}

} // verus!
