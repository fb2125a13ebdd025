use mch8::error::{ExecError, LoadError};
use mch8::globals::{
    CHIP8_SCREEN_HEIGHT, CHIP8_SCREEN_WIDTH, PROCESSOR_INTERNAL_PROGRAM_COUNTER_START,
    TIMER_DIVISION_CLOCK,
};
use mch8::virtual_machine::{VirtualMachine, FONTSET, FONTSET_SIZE, MAX_ROM_PROGRAM_SIZE};

fn machine_with(program: &[u8]) -> VirtualMachine {
    let mut machine = VirtualMachine::new();
    assert_eq!(machine.load_rom(program), Ok(()));
    machine
}

fn steps(machine: &mut VirtualMachine, count: usize) {
    for _ in 0..count {
        assert_eq!(machine.execute_processor_instruction(), Ok(()));
    }
}

fn memory_is_zero(machine: &VirtualMachine) -> bool {
    (0..4096u16).all(|addr| machine.memory().read(addr) == 0)
}

#[test]
fn constants_of_the_machine() {
    assert_eq!(CHIP8_SCREEN_WIDTH, 64);
    assert_eq!(CHIP8_SCREEN_HEIGHT, 32);
    assert_eq!(TIMER_DIVISION_CLOCK, 9);
    assert_eq!(PROCESSOR_INTERNAL_PROGRAM_COUNTER_START, 0x200);
    assert_eq!(MAX_ROM_PROGRAM_SIZE, 0xFFF - 0x200 + 1);
    assert_eq!(FONTSET_SIZE, 80);
    assert_eq!(FONTSET.len(), 80);
}

#[test]
fn new_machine_is_blank() {
    let machine = VirtualMachine::new();
    assert!(memory_is_zero(&machine));
    assert!(!machine.screen_need_repaint());
    assert_eq!(machine.processor().program_counter(), 0x200);
    for y in 0..32u8 {
        for x in 0..64u8 {
            assert!(!machine.is_pixel_switched_on(x, y));
        }
    }
}

#[test]
fn load_writes_the_font_and_the_program() {
    let program = [0x60u8, 0x0A, 0x61, 0x05, 0x80, 0x14];
    let machine = machine_with(&program);
    for addr in 0..80u16 {
        assert_eq!(machine.memory().read(addr), FONTSET[addr as usize]);
    }
    for addr in 80..0x200u16 {
        assert_eq!(machine.memory().read(addr), 0);
    }
    for (i, byte) in program.iter().enumerate() {
        assert_eq!(machine.memory().read(0x200 + i as u16), *byte);
    }
    for addr in 0x206..4096u16 {
        assert_eq!(machine.memory().read(addr), 0);
    }
    assert_eq!(machine.processor().program_counter(), 0x200);
}

#[test]
fn load_keeps_bytes_outside_font_and_program() {
    let mut machine = machine_with(&[0xAA; 16]);
    assert_eq!(machine.load_rom(&[0x11, 0x22]), Ok(()));
    assert_eq!(machine.memory().read(0x200), 0x11);
    assert_eq!(machine.memory().read(0x201), 0x22);
    assert_eq!(machine.memory().read(0x202), 0xAA);
    assert_eq!(machine.memory().read(0x20F), 0xAA);
    assert_eq!(machine.memory().read(0x210), 0);
}

#[test]
fn oversized_image_is_refused_and_memory_stays_zero() {
    let mut machine = VirtualMachine::new();
    let image = vec![0xFFu8; 4000];
    assert_eq!(machine.load_rom(&image), Err(LoadError::TooLarge));
    assert!(memory_is_zero(&machine));
}

#[test]
fn largest_image_fills_memory_to_its_end() {
    let mut image = vec![0x5Au8; 3584];
    image[3583] = 0xC3;
    let machine = machine_with(&image);
    assert_eq!(machine.memory().read(0x200), 0x5A);
    assert_eq!(machine.memory().read(0xFFE), 0x5A);
    assert_eq!(machine.memory().read(0xFFF), 0xC3);
    assert_eq!(machine.memory().read(0x1FF), 0);
}

#[test]
fn image_one_byte_too_large_is_refused() {
    let mut machine = machine_with(&[1, 2, 3]);
    let image = vec![0x77u8; 3585];
    assert_eq!(machine.load_rom(&image), Err(LoadError::TooLarge));
    assert_eq!(machine.memory().read(0x200), 1);
    assert_eq!(machine.memory().read(0x203), 0);
    assert_eq!(machine.memory().read(0), 0xF0);
}

#[test]
fn empty_image_loads_the_font_only() {
    let machine = machine_with(&[]);
    assert_eq!(machine.memory().read(0), 0xF0);
    assert_eq!(machine.memory().read(79), 0x80);
    assert_eq!(machine.memory().read(0x200), 0);
}

#[test]
fn load_error_messages() {
    assert_eq!(LoadError::OpenFailed.message(), "[Error] Unable to open the given ROM file !");
    assert_eq!(LoadError::ReadFailed.message(), "[Error] Unable to read the given ROM file !");
    assert_eq!(
        LoadError::TooLarge.message(),
        "[Error] The ROM file given is too big to fit into memory !"
    );
}

#[test]
fn three_step_program() {
    let mut machine = machine_with(&[0x60, 0x0A, 0x61, 0x05, 0x80, 0x14]);
    steps(&mut machine, 3);
    let registers = machine.processor().registers();
    assert_eq!(registers[0], 0x0F);
    assert_eq!(registers[1], 0x05);
    assert_eq!(registers[0xF], 0);
    assert_eq!(machine.processor().program_counter(), 0x206);
}

#[test]
fn glyph_lookup() {
    // V0 = 0, I = glyph of V0.
    let mut machine = machine_with(&[0x60, 0x00, 0xF0, 0x29]);
    steps(&mut machine, 2);
    let index = machine.processor().index_register();
    assert_eq!(index, 0);
    let glyph: Vec<u8> = (0..5).map(|i| machine.memory().read(index + i)).collect();
    assert_eq!(glyph, vec![0xF0, 0x90, 0x90, 0x90, 0xF0]);
}

#[test]
fn glyph_lookup_of_every_digit() {
    for digit in 0..16u8 {
        let mut machine = machine_with(&[0x63, digit, 0xF3, 0x29]);
        steps(&mut machine, 2);
        let index = machine.processor().index_register();
        assert_eq!(index, digit as u16 * 5);
        for i in 0..5u16 {
            assert_eq!(machine.memory().read(index + i), FONTSET[(digit as u16 * 5 + i) as usize]);
        }
    }
}

#[test]
fn glyph_is_drawn_from_the_font() {
    // V0 = 7, I = glyph of V0, draw 5 rows at (V1, V2) = (0, 0).
    let mut machine = machine_with(&[0x60, 0x07, 0xF0, 0x29, 0xD1, 0x25]);
    steps(&mut machine, 3);
    let rows = ["####", "...#", "..#.", ".#..", ".#.."];
    for (y, row) in rows.iter().enumerate() {
        for (x, mark) in row.chars().enumerate() {
            assert_eq!(machine.is_pixel_switched_on(x as u8, y as u8), mark == '#');
        }
        for x in 4..64u8 {
            assert!(!machine.is_pixel_switched_on(x, y as u8));
        }
    }
    assert!(machine.screen_need_repaint());
    machine.disable_repaint();
    assert!(!machine.screen_need_repaint());
    assert!(machine.is_pixel_switched_on(0, 0));
    assert!(!machine.is_pixel_switched_on(64, 0));
    assert!(!machine.is_pixel_switched_on(0, 32));
}

#[test]
fn clear_after_draw() {
    let mut machine = machine_with(&[0xD0, 0x05, 0x00, 0xE0]);
    steps(&mut machine, 1);
    assert!(machine.is_pixel_switched_on(0, 0));
    machine.disable_repaint();
    steps(&mut machine, 1);
    for y in 0..32u8 {
        for x in 0..64u8 {
            assert!(!machine.is_pixel_switched_on(x, y));
        }
    }
    assert!(machine.screen_need_repaint());
}

#[test]
fn stepping_into_blank_memory_is_an_unknown_opcode() {
    let mut machine = machine_with(&[0x60, 0x01]);
    steps(&mut machine, 1);
    assert_eq!(
        machine.execute_processor_instruction(),
        Err(ExecError::UnknownOpcode { opcode: 0x0000 })
    );
    assert_eq!(machine.processor().program_counter(), 0x202);
    assert_eq!(
        machine.execute_processor_instruction(),
        Err(ExecError::UnknownOpcode { opcode: 0x0000 })
    );
}

#[test]
fn return_without_call_is_a_stack_underflow() {
    let mut machine = machine_with(&[0x00, 0xEE]);
    assert_eq!(machine.execute_processor_instruction(), Err(ExecError::StackUnderflow));
    assert_eq!(machine.processor().program_counter(), 0x200);
}

#[test]
fn subroutine_round_trip() {
    // 0x200: call 0x206; 0x202: V1 = 2; 0x204: jump 0x204; 0x206: V0 = 1; 0x208: return
    let mut machine =
        machine_with(&[0x22, 0x06, 0x61, 0x02, 0x12, 0x04, 0x60, 0x01, 0x00, 0xEE]);
    steps(&mut machine, 1);
    assert_eq!(machine.processor().stack(), vec![0x200u16]);
    steps(&mut machine, 2);
    assert_eq!(machine.processor().program_counter(), 0x202);
    assert_eq!(machine.processor().stack(), Vec::<u16>::new());
    steps(&mut machine, 5);
    let registers = machine.processor().registers();
    assert_eq!((registers[0], registers[1]), (1, 2));
    assert_eq!(machine.processor().program_counter(), 0x204);
}

#[test]
fn instruction_at_the_last_address_reads_its_low_byte_as_zero() {
    // Jump to 0xFFF, where the high byte 0x6A lies; the low byte is past
    // the end of memory.
    let mut image = vec![0u8; 3584];
    image[0] = 0x1F;
    image[1] = 0xFF;
    image[3583] = 0x6A;
    let mut machine = machine_with(&image);
    steps(&mut machine, 2);
    assert_eq!(machine.processor().registers()[0xA], 0);
    assert_eq!(machine.processor().program_counter(), 0x1001);
    assert_eq!(
        machine.execute_processor_instruction(),
        Err(ExecError::UnknownOpcode { opcode: 0 })
    );
}

#[test]
fn machine_keys() {
    // Wait for a key into V2.
    let mut machine = machine_with(&[0xF2, 0x0A]);
    steps(&mut machine, 2);
    assert_eq!(machine.processor().program_counter(), 0x200);
    machine.set_key(16, true);
    steps(&mut machine, 1);
    assert_eq!(machine.processor().program_counter(), 0x200);
    machine.set_key(0xB, true);
    assert!(machine.processor().keys()[0xB]);
    steps(&mut machine, 1);
    assert_eq!(machine.processor().program_counter(), 0x202);
    assert_eq!(machine.processor().registers()[2], 0xB);
    machine.set_key(0xB, false);
    assert_eq!(machine.processor().keys(), [false; 16]);
}

#[test]
fn machine_timers() {
    // V0 = 3; delay = V0; sound = V0
    let mut machine = machine_with(&[0x60, 0x03, 0xF0, 0x15, 0xF0, 0x18]);
    steps(&mut machine, 3);
    assert!(!machine.update_processor_timers());
    assert!(machine.update_processor_timers());
    assert!(!machine.update_processor_timers());
    assert!(!machine.update_processor_timers());
    assert_eq!(machine.processor().delay_timer(), 0);
    assert_eq!(machine.processor().sound_timer(), 0);
}

#[test]
fn timer_clock_ticks_every_ninth_cycle() {
    // V0 = 40; delay = V0; then a jump to itself
    let mut machine = machine_with(&[0x60, 0x28, 0xF0, 0x15, 0x12, 0x04]);
    steps(&mut machine, 2);
    let mut delays = Vec::new();
    for _ in 0..27 {
        steps(&mut machine, 1);
        assert!(!machine.advance_timer_clock());
        delays.push(machine.processor().delay_timer());
    }
    let mut expected = vec![40u8; 8];
    expected.extend(vec![39u8; 9]);
    expected.extend(vec![38u8; 9]);
    expected.push(37);
    assert_eq!(delays, expected);
}

#[test]
fn timer_clock_hands_on_the_sound_cue() {
    // V0 = 2; sound = V0
    let mut machine = machine_with(&[0x60, 0x02, 0xF0, 0x18]);
    steps(&mut machine, 2);
    let mut cues = Vec::new();
    for _ in 0..18 {
        cues.push(machine.advance_timer_clock());
    }
    let mut expected = vec![false; 18];
    expected[8] = true;
    assert_eq!(cues, expected);
    assert_eq!(machine.processor().sound_timer(), 0);
}
