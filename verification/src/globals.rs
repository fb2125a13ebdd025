use vstd::prelude::*;

verus! {

/// Width of the pixel grid, in cells.
pub const CHIP8_SCREEN_WIDTH: u8 = 64;

/// Height of the pixel grid, in cells.
pub const CHIP8_SCREEN_HEIGHT: u8 = 32;

/// Number of executed instructions between two updates of the timers.
pub const TIMER_DIVISION_CLOCK: u8 = 9;

/// Address of the first instruction of a loaded program, and the value the
/// program counter starts with.
pub const PROCESSOR_INTERNAL_PROGRAM_COUNTER_START: u16 = 0x200;

} // verus!
