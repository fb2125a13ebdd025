use rand::rngs::ThreadRng;
use rand::Rng;
use vstd::prelude::*;

use crate::error::ExecError;
use crate::globals::{
    CHIP8_SCREEN_HEIGHT,
    CHIP8_SCREEN_WIDTH,
    PROCESSOR_INTERNAL_PROGRAM_COUNTER_START,
};
use crate::instruction::{decode_spec, Instruction};
use crate::memory::{read_at, write_at, Memory};
use crate::render_table::{PixelState, RenderTable, TOTAL_RENDER_TABLE_SIZE};
use crate::semantics::{
    execute,
    execute_opcode,
    fault,
    fetch,
    last_key_down,
    load_registers,
    machine_of,
    opcode_fault,
    report,
    store_registers,
    ProcessorModel,
    GLYPH_SIZE,
    KEYS_COUNT,
    REGISTERS_COUNT,
};
use crate::sprite::{
    collides_before,
    drawn_before,
    lemma_draw_bit,
    lemma_draw_done,
    lemma_draw_row,
};

verus! {

/// The generator type of the `rand` crate that `rand::thread_rng` hands out.
/// Nothing inside it is visible to the proofs.
#[verifier::external_type_specification]
#[verifier::external_body]
pub struct ExThreadRng(rand::rngs::ThreadRng);

/// Calls `rand::thread_rng`, which hands out a handle to the calling
/// thread's generator, seeded by the operating system. Nothing is claimed
/// of the handle.
#[verifier::external_body]
fn thread_generator() -> ThreadRng {
    rand::thread_rng()
}

/// Calls `rand::Rng::gen_range` on the range from `low` to `high`, both
/// included. The call panics on an empty range, which the precondition
/// leaves out. The value depends on chance: all that is claimed of it is
/// that it lies in the range.
#[verifier::external_body]
fn random_in_range(rng: &mut ThreadRng, low: u8, high: u8) -> (value: u8)
    requires
        low <= high,
    ensures
        low <= value <= high,
{
    rng.gen_range(low..=high)
}

/// The processor: registers, keys, call stack, timers, program counter and
/// the flag that asks the host to paint the grid.
pub struct VirtualProcessor {
    registers: [u8; 16],
    keys: [bool; 16],
    stack: Vec<u16>,
    index_register: u16,
    delay_timer: u8,
    sound_timer: u8,
    program_counter: u16,
    draw_flag: bool,
    rng: ThreadRng,
}

impl View for VirtualProcessor {
    type V = ProcessorModel;

    closed spec fn view(&self) -> ProcessorModel {
        ProcessorModel {
            registers: self.registers@,
            keys: self.keys@,
            stack: self.stack@,
            index_register: self.index_register,
            delay_timer: self.delay_timer,
            sound_timer: self.sound_timer,
            program_counter: self.program_counter,
            draw_flag: self.draw_flag,
        }
    }
}

/// Reads the byte `offset` addresses past `base`.
fn read_offset(memory: &Memory, base: u16, offset: u8) -> (data: u8)
    ensures
        data == read_at(memory@, base + offset),
{
    proof {
        memory.lemma_size();
    }
    let addr: u32 = base as u32 + offset as u32;
    if addr > 0xFFFF {
        0
    } else {
        memory.read(addr as u16)
    }
}

/// Stores `data` at the address `offset` past `base`.
fn write_offset(memory: &mut Memory, base: u16, offset: u8, data: u8)
    ensures
        final(memory)@ == write_at(old(memory)@, base + offset, data),
{
    proof {
        memory.lemma_size();
    }
    let addr: u32 = base as u32 + offset as u32;
    if addr <= 0xFFFF {
        memory.write(addr as u16, data);
    }
}

/// Relates the shifts and masks of the two shift instructions to the
/// arithmetic by which their results are defined.
proof fn lemma_shifts(v: u8)
    ensures
        v & 0x1 == v % 2,
        v >> 1 == v / 2,
        (v & 128) >> 7 == v / 0x80,
        v << 1 == (v * 2) % 0x100,
{
    assert(v & 0x1 == v % 2 && v >> 1 == v / 2 && (v & 128) >> 7 == v / 0x80 && v << 1 == (v * 2)
        % 0x100) by (bit_vector);
}

/// The low byte of a sum of two bytes is the sum modulo 256.
proof fn lemma_low_byte(sum: u16)
    ensures
        sum & 0xFF == sum % 0x100,
{
    assert(sum & 0xFF == sum % 0x100) by (bit_vector);
}

/// An instruction word is its high byte times 256 plus its low byte.
proof fn lemma_word(msb: u16, lsb: u16)
    requires
        msb < 0x100,
        lsb < 0x100,
    ensures
        msb << 8 | lsb == msb * 0x100 + lsb,
{
    assert(msb << 8 | lsb == msb * 0x100 + lsb) by (bit_vector)
        requires
            msb < 0x100,
            lsb < 0x100,
    ;
}

/// The coordinate `offset` cells past `origin` on an axis of `size` cells,
/// wrapped around its end.
fn wrap_coordinate(origin: u8, offset: u8, size: u8) -> (wrapped: u8)
    requires
        size == CHIP8_SCREEN_WIDTH || size == CHIP8_SCREEN_HEIGHT,
    ensures
        wrapped == (origin + offset) % (size as int),
{
    origin.wrapping_add(offset) % size
}

impl VirtualProcessor {
    /// The view of every processor has sixteen registers and sixteen keys.
    pub proof fn lemma_wf(&self)
        ensures
            self@.wf(),
    {
    }

    /// A processor with every register, key and timer at zero, an empty call
    /// stack, and the program counter at the start of program memory.
    pub fn new() -> (processor: VirtualProcessor)
        ensures
            processor@ == ProcessorModel::initial(),
    {
        VirtualProcessor {
            registers: [0x0; 16],
            keys: [false; 16],
            stack: Vec::new(),
            index_register: 0x0,
            delay_timer: 0x0,
            sound_timer: 0x0,
            program_counter: PROCESSOR_INTERNAL_PROGRAM_COUNTER_START,
            draw_flag: false,
            rng: thread_generator(),
        }
    }

    /// The registers V0 to VF.
    pub fn registers(&self) -> (values: [u8; 16])
        ensures
            values@ == self@.registers,
    {
        self.registers
    }

    /// For each key, whether it is held down.
    pub fn keys(&self) -> (states: [bool; 16])
        ensures
            states@ == self@.keys,
    {
        self.keys
    }

    /// The return addresses of the calls in progress, innermost last.
    pub fn stack(&self) -> (addresses: Vec<u16>)
        ensures
            addresses@ == self@.stack,
    {
        self.stack.clone()
    }

    /// The index register I.
    pub fn index_register(&self) -> (value: u16)
        ensures
            value == self@.index_register,
    {
        self.index_register
    }

    /// The delay timer.
    pub fn delay_timer(&self) -> (value: u8)
        ensures
            value == self@.delay_timer,
    {
        self.delay_timer
    }

    /// The sound timer.
    pub fn sound_timer(&self) -> (value: u8)
        ensures
            value == self@.sound_timer,
    {
        self.sound_timer
    }

    /// The address of the next instruction.
    pub fn program_counter(&self) -> (value: u16)
        ensures
            value == self@.program_counter,
    {
        self.program_counter
    }

    /// Records that key `n` went down or up. A number above 15 names no key
    /// and is ignored.
    pub fn set_key(&mut self, n: u8, is_down: bool)
        ensures
            final(self)@ == old(self)@.set_key(n, is_down),
    {
        if (n as usize) < KEYS_COUNT {
            self.keys[n as usize] = is_down;
        }
    }

    /// Whether the pixel grid changed since the flag was last reset.
    pub fn get_draw_flag(&self) -> (flag: bool)
        ensures
            flag == self@.draw_flag,
    {
        self.draw_flag
    }

    /// Resets the flag after the host has painted the grid.
    pub fn reset_draw_flag(&mut self)
        ensures
            final(self)@ == (ProcessorModel { draw_flag: false, ..old(self)@ }),
    {
        self.draw_flag = false;
    }

    /// Counts both timers down by one where they are not zero. Returns
    /// whether the host is to play the sound cue, which is when the sound
    /// timer reaches one.
    pub fn update_timers(&mut self) -> (cue: bool)
        ensures
            final(self)@ == old(self)@.tick_timers(),
            cue == old(self)@.sound_cue(),
    {
        let mut cue = false;
        if self.delay_timer > 0x0 {
            self.delay_timer -= 1;
        }
        if self.sound_timer > 0x0 {
            self.sound_timer -= 1;
            if self.sound_timer == 0x1 {
                cue = true;
            }
        }
        cue
    }

    /// Reads the instruction word at the program counter.
    pub fn fetch_next_opcode(&self, memory: &Memory) -> (opcode: u16)
        ensures
            opcode == fetch(self@, memory@),
    {
        let msb = memory.read(self.program_counter) as u16;
        let lsb = read_offset(memory, self.program_counter, 1) as u16;
        proof {
            lemma_word(msb, lsb);
        }
        msb << 8 | lsb
    }

    /// Moves the program counter on by `by`, modulo 2^16.
    fn advance(&mut self, by: u16)
        ensures
            final(self)@ == old(self)@.advance(by as int),
    {
        self.program_counter = self.program_counter.wrapping_add(by);
    }

    /// Moves the program counter past this instruction, and past the next
    /// one too where `skip` holds.
    fn skip_if(&mut self, skip: bool)
        ensures
            final(self)@ == old(self)@.skip_if(skip),
    {
        if skip {
            self.advance(4);
        } else {
            self.advance(2);
        }
    }

    /// Draws the sprite of `rows` rows stored at I with its top left corner at
    /// (Vx, Vy): each set bit inverts the cell it lands on. VF tells whether
    /// a lit cell was switched off.
    fn draw(&mut self, x: u8, y: u8, rows: u8, memory: &Memory, render_table: &mut RenderTable)
        requires
            x < REGISTERS_COUNT,
            y < REGISTERS_COUNT,
            rows < 16,
        ensures
            machine_of(final(self)@, memory@, final(render_table)@) == execute(
                machine_of(old(self)@, memory@, old(render_table)@),
                Instruction::Draw { x, y, rows },
                0,
            ),
    {
        proof {
            render_table.lemma_size();
        }
        self.registers[0xF] = 0;

        let origin_x = self.registers[x as usize];
        let origin_y = self.registers[y as usize];
        let ghost reset = self@;
        let ghost screen = render_table@;
        let ghost index = self.index_register as int;
        let ghost ox = origin_x as int;
        let ghost oy = origin_y as int;
        assert(render_table@ =~= drawn_before(screen, memory@, index, ox, oy, 0, 0));
        assert(!collides_before(screen, memory@, index, ox, oy, 0, 0));
        assert(reset =~= reset.set_flag(false));

        let mut y_coord: u8 = 0;
        while y_coord < rows
            invariant
                y_coord <= rows < 16,
                reset.wf(),
                index == reset.index_register,
                ox == origin_x,
                oy == origin_y,
                screen.len() == TOTAL_RENDER_TABLE_SIZE,
                render_table@ == drawn_before(screen, memory@, index, ox, oy, y_coord as int, 0),
                self@ == reset.set_flag(
                    collides_before(screen, memory@, index, ox, oy, y_coord as int, 0),
                ),
            decreases rows - y_coord,
        {
            let mut x_coord: u8 = 0;
            while x_coord < 8
                invariant
                    y_coord < rows < 16,
                    x_coord <= 8,
                    reset.wf(),
                    index == reset.index_register,
                    ox == origin_x,
                    oy == origin_y,
                    screen.len() == TOTAL_RENDER_TABLE_SIZE,
                    render_table@ == drawn_before(
                        screen,
                        memory@,
                        index,
                        ox,
                        oy,
                        y_coord as int,
                        x_coord as int,
                    ),
                    self@ == reset.set_flag(
                        collides_before(
                            screen,
                            memory@,
                            index,
                            ox,
                            oy,
                            y_coord as int,
                            x_coord as int,
                        ),
                    ),
                decreases 8 - x_coord,
            {
                proof {
                    lemma_draw_bit(screen, memory@, index, ox, oy, y_coord as int, x_coord as int);
                }
                let pixel = read_offset(memory, self.index_register, y_coord);
                if pixel & (0x80u8 >> x_coord) != 0 {
                    let pixel_x = wrap_coordinate(origin_x, x_coord, CHIP8_SCREEN_WIDTH);
                    let pixel_y = wrap_coordinate(origin_y, y_coord, CHIP8_SCREEN_HEIGHT);

                    if render_table.is_pixel_switched_on(pixel_x, pixel_y) {
                        render_table.change_pixel_state_to(
                            pixel_x,
                            pixel_y,
                            PixelState::SwitchedOff,
                        );
                        self.registers[0xF] = 1;  // collision.
                    } else {
                        render_table.change_pixel_state_to(
                            pixel_x,
                            pixel_y,
                            PixelState::SwitchedOn,
                        );
                    }
                }
                x_coord += 1;
            }
            proof {
                lemma_draw_row(screen, memory@, index, ox, oy, y_coord as int);
            }
            y_coord += 1;
        }
        proof {
            lemma_draw_done(screen, memory@, index, ox, oy, rows as int);
        }

        self.draw_flag = true;
        self.advance(2);
    }

    /// Looks for a key that is held down. Where there is one, stores the
    /// number of the highest in Vx and moves on; where there is none, leaves
    /// the program counter on this instruction.
    fn wait_key(&mut self, x: u8)
        requires
            x < REGISTERS_COUNT,
        ensures
            final(self)@ == (match last_key_down(old(self)@.keys, KEYS_COUNT as int) {
                Some(key) => old(self)@.set_reg(x, key).advance(2),
                None => old(self)@,
            }),
    {
        let mut pressed = false;
        let mut i: u8 = 0;
        while i < 16
            invariant
                i <= 16,
                x < REGISTERS_COUNT,
                pressed == last_key_down(old(self)@.keys, i as int).is_some(),
                self@ == (match last_key_down(old(self)@.keys, i as int) {
                    Some(key) => old(self)@.set_reg(x, key),
                    None => old(self)@,
                }),
            decreases 16 - i,
        {
            if self.keys[i as usize] {
                self.registers[x as usize] = i;
                pressed = true;
            }
            i += 1;
        }

        if !pressed {
            return ;
        }
        self.advance(2);
    }

    /// Stores V0 to Vx in memory, from the address in I on.
    fn store_registers(&mut self, x: u8, memory: &mut Memory)
        requires
            x < REGISTERS_COUNT,
        ensures
            final(self)@ == old(self)@.advance(2),
            final(memory)@ == store_registers(
                old(memory)@,
                old(self)@.index_register as int,
                old(self)@.registers,
                x + 1,
            ),
    {
        proof {
            memory.lemma_size();
        }
        let mut i: u8 = 0;
        while i < x + 1
            invariant
                i <= x + 1,
                x < REGISTERS_COUNT,
                self@ == old(self)@,
                memory@ == store_registers(
                    old(memory)@,
                    old(self)@.index_register as int,
                    old(self)@.registers,
                    i as int,
                ),
            decreases x + 1 - i,
        {
            let reg = self.registers[i as usize];
            write_offset(memory, self.index_register, i, reg);
            i += 1;
        }
        self.advance(2);
    }

    /// Fills V0 to Vx from memory, from the address in I on.
    fn load_registers(&mut self, x: u8, memory: &Memory)
        requires
            x < REGISTERS_COUNT,
        ensures
            final(self)@ == (ProcessorModel {
                registers: load_registers(
                    old(self)@.registers,
                    memory@,
                    old(self)@.index_register as int,
                    x + 1,
                ),
                ..old(self)@
            }).advance(2),
    {
        let mut i: u8 = 0;
        while i < x + 1
            invariant
                i <= x + 1,
                x < REGISTERS_COUNT,
                self@ == (ProcessorModel {
                    registers: load_registers(
                        old(self)@.registers,
                        memory@,
                        old(self)@.index_register as int,
                        i as int,
                    ),
                    ..old(self)@
                }),
            decreases x + 1 - i,
        {
            let reg_from_mem = read_offset(memory, self.index_register, i);
            self.registers[i as usize] = reg_from_mem;
            i += 1;
        }
        self.advance(2);
    }

    /// Executes the instruction word `opcode`. Where the word asks for a
    /// random byte, one is drawn from the processor's generator.
    ///
    /// The state afterwards is the one that the instruction table gives for
    /// some byte of the random source, and for every byte where the word
    /// asks for none; a word that is refused leaves the state as it was.
    pub fn execute_instruction(
        &mut self,
        opcode: u16,
        memory: &mut Memory,
        render_table: &mut RenderTable,
    ) -> (res: Result<(), ExecError>)
        ensures
            res == report(
                opcode_fault(machine_of(old(self)@, old(memory)@, old(render_table)@), opcode),
            ),
            exists|random: u8|
                machine_of(final(self)@, final(memory)@, final(render_table)@)
                    == #[trigger] execute_opcode(
                    machine_of(old(self)@, old(memory)@, old(render_table)@),
                    opcode,
                    random,
                ),
            !(decode_spec(opcode) matches Some(Instruction::Random { .. })) ==> machine_of(
                final(self)@,
                final(memory)@,
                final(render_table)@,
            ) == execute_opcode(
                machine_of(old(self)@, old(memory)@, old(render_table)@),
                opcode,
                0,
            ),
    {
        match Instruction::decode(opcode) {
            Some(instruction) => {
                let random = match instruction {
                    Instruction::Random { .. } => random_in_range(&mut self.rng, 0x00, 0xFF),
                    _ => 0,
                };
                let res = self.run(instruction, random, memory, render_table);
                assert(machine_of(self@, memory@, render_table@) == execute_opcode(
                    machine_of(old(self)@, old(memory)@, old(render_table)@),
                    opcode,
                    random,
                ));
                res
            },
            None => {
                assert(machine_of(self@, memory@, render_table@) == execute_opcode(
                    machine_of(old(self)@, old(memory)@, old(render_table)@),
                    opcode,
                    0,
                ));
                Err(ExecError::UnknownOpcode { opcode })
            },
        }
    }

    /// Executes the instruction word `opcode`, with `random` in the place of
    /// the byte that the random source would give.
    pub fn execute_instruction_with(
        &mut self,
        opcode: u16,
        random: u8,
        memory: &mut Memory,
        render_table: &mut RenderTable,
    ) -> (res: Result<(), ExecError>)
        ensures
            res == report(
                opcode_fault(machine_of(old(self)@, old(memory)@, old(render_table)@), opcode),
            ),
            machine_of(final(self)@, final(memory)@, final(render_table)@) == execute_opcode(
                machine_of(old(self)@, old(memory)@, old(render_table)@),
                opcode,
                random,
            ),
    {
        match Instruction::decode(opcode) {
            Some(instruction) => self.run(instruction, random, memory, render_table),
            None => Err(ExecError::UnknownOpcode { opcode }),
        }
    }

    /// Executes one decoded instruction, with `random` as the byte of the
    /// random source.
    fn run(
        &mut self,
        instruction: Instruction,
        random: u8,
        memory: &mut Memory,
        render_table: &mut RenderTable,
    ) -> (res: Result<(), ExecError>)
        requires
            instruction.wf(),
        ensures
            res == report(
                fault(machine_of(old(self)@, old(memory)@, old(render_table)@), instruction),
            ),
            machine_of(final(self)@, final(memory)@, final(render_table)@) == execute(
                machine_of(old(self)@, old(memory)@, old(render_table)@),
                instruction,
                random,
            ),
    {
        match instruction {
            Instruction::ClearScreen => {
                render_table.clear();
                self.draw_flag = true;
                self.advance(2);
            },
            Instruction::Return => {
                match self.stack.pop() {
                    Some(addr) => {
                        self.program_counter = addr;
                        self.advance(2);
                    },
                    None => {
                        return Err(ExecError::StackUnderflow);
                    },
                }
            },
            Instruction::Jump { addr } => {
                self.program_counter = addr;
            },
            Instruction::Call { addr } => {
                self.stack.push(self.program_counter);
                self.program_counter = addr;
            },
            Instruction::SkipIfEqual { x, byte } => {
                self.skip_if(self.reg(x) == byte);
            },
            Instruction::SkipIfNotEqual { x, byte } => {
                self.skip_if(self.reg(x) != byte);
            },
            Instruction::SkipIfRegistersEqual { x, y } => {
                self.skip_if(self.reg(x) == self.reg(y));
            },
            Instruction::Load { x, byte } => {
                self.set_reg(x, byte);
                self.advance(2);
            },
            Instruction::AddByte { x, byte } => {
                self.set_reg(x, self.reg(x).wrapping_add(byte));
                self.advance(2);
            },
            Instruction::Move { x, y } => {
                self.set_reg(x, self.reg(y));
                self.advance(2);
            },
            Instruction::Or { x, y } => {
                self.set_reg(x, self.reg(x) | self.reg(y));
                self.advance(2);
            },
            Instruction::And { x, y } => {
                self.set_reg(x, self.reg(x) & self.reg(y));
                self.advance(2);
            },
            Instruction::Xor { x, y } => {
                self.set_reg(x, self.reg(x) ^ self.reg(y));
                self.advance(2);
            },
            Instruction::AddRegister { x, y } => {
                self.add_registers(x, y);
                self.advance(2);
            },
            Instruction::Subtract { x, y } => {
                self.subtract(x, y);
                self.advance(2);
            },
            Instruction::ShiftRight { x } => {
                self.shift_right(x);
                self.advance(2);
            },
            Instruction::SubtractFrom { x, y } => {
                self.subtract_from(x, y);
                self.advance(2);
            },
            Instruction::ShiftLeft { x } => {
                self.shift_left(x);
                self.advance(2);
            },
            Instruction::SkipIfRegistersDiffer { x, y } => {
                self.skip_if(self.reg(x) != self.reg(y));
            },
            Instruction::LoadIndex { addr } => {
                self.index_register = addr;
                self.advance(2);
            },
            Instruction::JumpOffset { addr } => {
                self.program_counter = self.reg(0x0) as u16 + addr;
                self.advance(2);
            },
            Instruction::Random { x, byte } => {
                self.set_reg(x, random & byte);
                self.advance(2);
            },
            Instruction::Draw { x, y, rows } => {
                self.draw(x, y, rows, memory, render_table);
            },
            Instruction::SkipIfKeyDown { x } => {
                self.skip_if(self.key_down(self.reg(x)));
            },
            Instruction::SkipIfKeyUp { x } => {
                self.skip_if(!self.key_down(self.reg(x)));
            },
            Instruction::ReadDelay { x } => {
                self.set_reg(x, self.delay_timer);
                self.advance(2);
            },
            Instruction::WaitKey { x } => {
                self.wait_key(x);
            },
            Instruction::SetDelay { x } => {
                self.delay_timer = self.reg(x);
                self.advance(2);
            },
            Instruction::SetSound { x } => {
                self.sound_timer = self.reg(x);
                self.advance(2);
            },
            Instruction::AddIndex { x } => {
                self.index_register = self.index_register.wrapping_add(self.reg(x) as u16);
                self.advance(2);
            },
            Instruction::Glyph { x } => {
                self.index_register = self.reg(x) as u16 * GLYPH_SIZE;
                self.advance(2);
            },
            Instruction::StoreDecimal { x } => {
                let reg_val = self.reg(x);
                write_offset(memory, self.index_register, 0, reg_val / 100);  // Hundreds.
                write_offset(memory, self.index_register, 1, (reg_val % 100) / 10);  // Tens.
                write_offset(memory, self.index_register, 2, reg_val % 10);
                self.advance(2);
            },
            Instruction::StoreRegisters { x } => {
                self.store_registers(x, memory);
            },
            Instruction::LoadRegisters { x } => {
                self.load_registers(x, memory);
            },
        }
        Ok(())
    }

    /// Vx = Vx + Vy, with the carry in VF.
    fn add_registers(&mut self, x: u8, y: u8)
        requires
            x < REGISTERS_COUNT,
            y < REGISTERS_COUNT,
        ensures
            final(self)@ == old(self)@.add_registers(x, y),
    {
        let r: u16 = self.reg(x) as u16 + self.reg(y) as u16;
        proof {
            lemma_low_byte(r);
        }
        self.set_reg(0xF, if r > 0xFF { 1 } else { 0 });
        self.set_reg(x, (r & 0xFF) as u8);
    }

    /// Vx = Vx - Vy, with VF telling whether Vx was the larger.
    fn subtract(&mut self, x: u8, y: u8)
        requires
            x < REGISTERS_COUNT,
            y < REGISTERS_COUNT,
        ensures
            final(self)@ == old(self)@.subtract(x, y),
    {
        self.set_reg(0xF, if self.reg(x) > self.reg(y) { 1 } else { 0 });
        self.set_reg(x, self.reg(x).wrapping_sub(self.reg(y)));
    }

    /// Vx = Vy - Vx, with VF telling whether Vy was the larger.
    fn subtract_from(&mut self, x: u8, y: u8)
        requires
            x < REGISTERS_COUNT,
            y < REGISTERS_COUNT,
        ensures
            final(self)@ == old(self)@.subtract_from(x, y),
    {
        self.set_reg(0xF, if self.reg(y) > self.reg(x) { 1 } else { 0 });
        self.set_reg(x, self.reg(y).wrapping_sub(self.reg(x)));
    }

    /// Vx = Vx >> 1, with the bit shifted out in VF.
    fn shift_right(&mut self, x: u8)
        requires
            x < REGISTERS_COUNT,
        ensures
            final(self)@ == old(self)@.shift_right(x),
    {
        proof {
            lemma_shifts(self@.reg(x));
        }
        self.set_reg(0xF, self.reg(x) & 0x1);
        proof {
            lemma_shifts(self@.reg(x));
        }
        self.set_reg(x, self.reg(x) >> 1);
    }

    /// Vx = Vx << 1, with the bit shifted out in VF.
    fn shift_left(&mut self, x: u8)
        requires
            x < REGISTERS_COUNT,
        ensures
            final(self)@ == old(self)@.shift_left(x),
    {
        proof {
            lemma_shifts(self@.reg(x));
        }
        self.set_reg(0xF, (self.reg(x) & 128) >> 7);
        proof {
            lemma_shifts(self@.reg(x));
        }
        self.set_reg(x, self.reg(x) << 1);
    }

    /// The value of register `i`.
    fn reg(&self, i: u8) -> (value: u8)
        requires
            i < REGISTERS_COUNT,
        ensures
            value == self@.reg(i),
    {
        self.registers[i as usize]
    }

    /// Sets register `i` to `value`.
    fn set_reg(&mut self, i: u8, value: u8)
        requires
            i < REGISTERS_COUNT,
        ensures
            final(self)@ == old(self)@.set_reg(i, value),
    {
        self.registers[i as usize] = value;
    }

    /// Whether key `key` is held down; `false` for a number that names no
    /// key.
    fn key_down(&self, key: u8) -> (down: bool)
        ensures
            down == self@.key_down(key),
    {
        (key as usize) < KEYS_COUNT && self.keys[key as usize]
    }
}

} // verus!
