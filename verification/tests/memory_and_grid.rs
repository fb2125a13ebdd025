use mch8::globals::{CHIP8_SCREEN_HEIGHT, CHIP8_SCREEN_WIDTH};
use mch8::memory::Memory;
use mch8::render_table::{PixelState, RenderTable};

#[test]
fn new_memory_is_zeroed() {
    let memory = Memory::new();
    for addr in 0..4096u16 {
        assert_eq!(memory.read(addr), 0);
    }
}

#[test]
fn write_then_read_returns_the_byte_at_every_address() {
    let mut memory = Memory::new();
    for addr in 0..4096u16 {
        let value = (addr % 251) as u8 + 1;
        memory.write(addr, value);
        assert_eq!(memory.read(addr), value);
    }
    for addr in 0..4096u16 {
        assert_eq!(memory.read(addr), (addr % 251) as u8 + 1);
    }
}

#[test]
fn write_leaves_other_addresses_alone() {
    let mut memory = Memory::new();
    memory.write(0x300, 0xAB);
    assert_eq!(memory.read(0x2FF), 0);
    assert_eq!(memory.read(0x300), 0xAB);
    assert_eq!(memory.read(0x301), 0);
}

#[test]
fn memory_access_out_of_range_is_harmless() {
    let mut memory = Memory::new();
    memory.write(4095, 0x11);
    for addr in [4096u16, 4097, 0x2000, 0xFFFF] {
        memory.write(addr, 0x77);
        assert_eq!(memory.read(addr), 0);
    }
    assert_eq!(memory.read(4095), 0x11);
    for addr in 0..4095u16 {
        assert_eq!(memory.read(addr), 0);
    }
}

#[test]
fn new_grid_is_blank() {
    let table = RenderTable::new();
    for y in 0..CHIP8_SCREEN_HEIGHT {
        for x in 0..CHIP8_SCREEN_WIDTH {
            assert!(!table.is_pixel_switched_on(x, y));
        }
    }
}

#[test]
fn pixel_set_and_get() {
    let mut table = RenderTable::new();
    table.change_pixel_state_to(63, 31, PixelState::SwitchedOn);
    table.change_pixel_state_to(0, 0, PixelState::SwitchedOn);
    table.change_pixel_state_to(5, 7, PixelState::SwitchedOn);
    assert!(table.is_pixel_switched_on(63, 31));
    assert!(table.is_pixel_switched_on(0, 0));
    assert!(table.is_pixel_switched_on(5, 7));
    assert!(!table.is_pixel_switched_on(7, 5));
    assert!(!table.is_pixel_switched_on(6, 7));
    table.change_pixel_state_to(5, 7, PixelState::SwitchedOff);
    assert!(!table.is_pixel_switched_on(5, 7));
    assert!(table.is_pixel_switched_on(0, 0));
}

#[test]
fn grid_is_row_major() {
    let mut table = RenderTable::new();
    table.change_pixel_state_to(1, 0, PixelState::SwitchedOn);
    let mut lit = 0;
    for y in 0..CHIP8_SCREEN_HEIGHT {
        for x in 0..CHIP8_SCREEN_WIDTH {
            if table.is_pixel_switched_on(x, y) {
                lit += 1;
                assert_eq!((x, y), (1, 0));
            }
        }
    }
    assert_eq!(lit, 1);
}

#[test]
fn pixel_access_off_the_grid_is_harmless() {
    let mut table = RenderTable::new();
    for (x, y) in [(64u8, 0u8), (0, 32), (64, 32), (255, 255), (63, 32), (64, 31)] {
        table.change_pixel_state_to(x, y, PixelState::SwitchedOn);
        assert!(!table.is_pixel_switched_on(x, y));
    }
    for y in 0..CHIP8_SCREEN_HEIGHT {
        for x in 0..CHIP8_SCREEN_WIDTH {
            assert!(!table.is_pixel_switched_on(x, y));
        }
    }
}

#[test]
fn clear_switches_every_pixel_off() {
    let mut table = RenderTable::new();
    for y in 0..CHIP8_SCREEN_HEIGHT {
        for x in 0..CHIP8_SCREEN_WIDTH {
            if (x + y) % 3 == 0 {
                table.change_pixel_state_to(x, y, PixelState::SwitchedOn);
            }
        }
    }
    assert!(table.is_pixel_switched_on(0, 0));
    assert!(table.is_pixel_switched_on(63, 0));
    table.clear();
    for y in 0..CHIP8_SCREEN_HEIGHT {
        for x in 0..CHIP8_SCREEN_WIDTH {
            assert!(!table.is_pixel_switched_on(x, y));
        }
    }
}

#[test]
fn pixel_states_compare() {
    assert_eq!(PixelState::SwitchedOn, PixelState::SwitchedOn);
    assert_ne!(PixelState::SwitchedOn, PixelState::SwitchedOff);
}
