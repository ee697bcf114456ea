//! Runtime checks of the engine: one program image per scenario, driven
//! through whole cycles and observed through the public accessors.

use nauka::emulator::Emulator;
use nauka::machine::EmulatorError;

fn boot(rom: Vec<u8>) -> Emulator {
    Emulator::new(rom).unwrap()
}

fn run_cycles(emulator: &mut Emulator, cycles: usize) {
    for _ in 0..cycles {
        emulator.next_cycle().unwrap();
    }
}

#[test]
fn load_immediate_into_register() {
    let mut emulator = boot(vec![0x6A, 0x05]);
    assert_eq!(emulator.program_counter(), 0x200);
    run_cycles(&mut emulator, 1);
    assert_eq!(emulator.register(0xA), 5);
    assert_eq!(emulator.program_counter(), 0x202);
}

#[test]
fn add_registers_with_carry() {
    let mut emulator = boot(vec![0x60, 0xFF, 0x61, 0x02, 0x80, 0x14]);
    run_cycles(&mut emulator, 3);
    assert_eq!(emulator.register(0), 1);
    assert_eq!(emulator.register(0xF), 1);
}

#[test]
fn add_registers_without_carry() {
    let mut emulator = boot(vec![0x60, 0x0A, 0x61, 0x14, 0x80, 0x14]);
    run_cycles(&mut emulator, 3);
    assert_eq!(emulator.register(0), 30);
    assert_eq!(emulator.register(0xF), 0);
}

#[test]
fn add_immediate_wraps_without_flag() {
    let mut emulator = boot(vec![0x60, 0xFF, 0x70, 0x02]);
    run_cycles(&mut emulator, 2);
    assert_eq!(emulator.register(0), 1);
    assert_eq!(emulator.register(0xF), 0);
}

#[test]
fn subtract_no_borrow_sets_flag() {
    let mut emulator = boot(vec![0x60, 0x05, 0x61, 0x03, 0x80, 0x15]);
    run_cycles(&mut emulator, 3);
    assert_eq!(emulator.register(0), 2);
    assert_eq!(emulator.register(0xF), 1);
}

#[test]
fn subtract_with_borrow_wraps() {
    let mut emulator = boot(vec![0x60, 0x03, 0x61, 0x05, 0x80, 0x15]);
    run_cycles(&mut emulator, 3);
    assert_eq!(emulator.register(0), 254);
    assert_eq!(emulator.register(0xF), 0);
}

#[test]
fn subtract_equal_values_clears_flag() {
    let mut emulator = boot(vec![0x60, 0x07, 0x61, 0x07, 0x80, 0x15]);
    run_cycles(&mut emulator, 3);
    assert_eq!(emulator.register(0), 0);
    assert_eq!(emulator.register(0xF), 0);
}

#[test]
fn subtract_reversed() {
    let mut emulator = boot(vec![0x60, 0x03, 0x61, 0x05, 0x80, 0x17]);
    run_cycles(&mut emulator, 3);
    assert_eq!(emulator.register(0), 2);
    assert_eq!(emulator.register(0xF), 1);
}

#[test]
fn shift_right_reports_low_bit() {
    let mut emulator = boot(vec![0x60, 0x05, 0x80, 0x06]);
    run_cycles(&mut emulator, 2);
    assert_eq!(emulator.register(0), 2);
    assert_eq!(emulator.register(0xF), 1);
}

#[test]
fn shift_left_reports_high_bit() {
    let mut emulator = boot(vec![0x60, 0x81, 0x80, 0x0E]);
    run_cycles(&mut emulator, 2);
    assert_eq!(emulator.register(0), 2);
    assert_eq!(emulator.register(0xF), 1);
}

#[test]
fn bitwise_or_and_xor() {
    let mut emulator = boot(vec![0x60, 0x0C, 0x61, 0x0A, 0x80, 0x11]);
    run_cycles(&mut emulator, 3);
    assert_eq!(emulator.register(0), 0x0E);

    let mut emulator = boot(vec![0x60, 0x0C, 0x61, 0x0A, 0x80, 0x12]);
    run_cycles(&mut emulator, 3);
    assert_eq!(emulator.register(0), 0x08);

    let mut emulator = boot(vec![0x60, 0x0C, 0x61, 0x0A, 0x80, 0x13]);
    run_cycles(&mut emulator, 3);
    assert_eq!(emulator.register(0), 0x06);
}

#[test]
fn copy_register() {
    let mut emulator = boot(vec![0x61, 0x2A, 0x80, 0x10]);
    run_cycles(&mut emulator, 2);
    assert_eq!(emulator.register(0), 0x2A);
}

#[test]
fn jump_sets_program_counter() {
    let mut emulator = boot(vec![0x12, 0x34]);
    run_cycles(&mut emulator, 1);
    assert_eq!(emulator.program_counter(), 0x234);
}

#[test]
fn skip_if_equal_immediate() {
    let mut emulator = boot(vec![0x63, 0x05, 0x33, 0x05]);
    run_cycles(&mut emulator, 2);
    assert_eq!(emulator.program_counter(), 0x206);

    let mut emulator = boot(vec![0x63, 0x05, 0x33, 0x06]);
    run_cycles(&mut emulator, 2);
    assert_eq!(emulator.program_counter(), 0x204);
}

#[test]
fn skip_if_not_equal_immediate() {
    let mut emulator = boot(vec![0x63, 0x05, 0x43, 0x06]);
    run_cycles(&mut emulator, 2);
    assert_eq!(emulator.program_counter(), 0x206);

    let mut emulator = boot(vec![0x63, 0x05, 0x43, 0x05]);
    run_cycles(&mut emulator, 2);
    assert_eq!(emulator.program_counter(), 0x204);
}

#[test]
fn skip_if_registers_equal() {
    let mut emulator = boot(vec![0x63, 0x05, 0x64, 0x05, 0x53, 0x40]);
    run_cycles(&mut emulator, 3);
    assert_eq!(emulator.program_counter(), 0x208);

    let mut emulator = boot(vec![0x63, 0x05, 0x64, 0x06, 0x53, 0x40]);
    run_cycles(&mut emulator, 3);
    assert_eq!(emulator.program_counter(), 0x206);
}

#[test]
fn skip_if_registers_not_equal() {
    let mut emulator = boot(vec![0x63, 0x05, 0x64, 0x06, 0x93, 0x40]);
    run_cycles(&mut emulator, 3);
    assert_eq!(emulator.program_counter(), 0x208);
}

#[test]
fn call_then_return_restores_stack_and_advances() {
    let mut rom = vec![0u8; 0x102];
    rom[0] = 0x23;
    rom[1] = 0x00;
    rom[0x100] = 0x00;
    rom[0x101] = 0xEE;
    let mut emulator = boot(rom);
    assert_eq!(emulator.stack_pointer(), 0);
    run_cycles(&mut emulator, 1);
    assert_eq!(emulator.program_counter(), 0x300);
    assert_eq!(emulator.stack_pointer(), 1);
    run_cycles(&mut emulator, 1);
    assert_eq!(emulator.program_counter(), 0x202);
    assert_eq!(emulator.stack_pointer(), 0);
}

#[test]
fn set_index_register() {
    let mut emulator = boot(vec![0xA3, 0x00]);
    run_cycles(&mut emulator, 1);
    assert_eq!(emulator.index_register(), 0x300);
}

#[test]
fn add_to_index_register() {
    let mut emulator = boot(vec![0xAF, 0xFF, 0x60, 0x02, 0xF0, 0x1E]);
    run_cycles(&mut emulator, 3);
    assert_eq!(emulator.index_register(), 0x1001);
}

#[test]
fn font_lookup_points_at_glyph() {
    let mut emulator = boot(vec![0x60, 0x0F, 0xF0, 0x29]);
    run_cycles(&mut emulator, 2);
    assert_eq!(emulator.index_register(), 0x9B);
}

#[test]
fn font_table_is_loaded() {
    let emulator = boot(vec![]);
    assert_eq!(emulator.read_ram(0x50, 5), vec![0xF0, 0x90, 0x90, 0x90, 0xF0]);
    assert_eq!(emulator.read_ram(0x9B, 5), vec![0xF0, 0x80, 0xF0, 0x80, 0x80]);
}

#[test]
fn draw_glyph_zero_at_origin() {
    let mut emulator = boot(vec![0x60, 0x00, 0x61, 0x00, 0xF0, 0x29, 0xD0, 0x15]);
    run_cycles(&mut emulator, 4);
    let glyph: [u8; 5] = [0xF0, 0x90, 0x90, 0x90, 0xF0];
    let video = emulator.video_memory();
    let mut lit = 0;
    for x in 0..64 {
        for y in 0..32 {
            let expected = x < 8 && y < 5 && (glyph[y] >> (7 - x)) & 1 == 1;
            assert_eq!(video[x][y], expected);
            if video[x][y] {
                lit += 1;
            }
        }
    }
    assert_eq!(lit, 14);
    assert_eq!(emulator.register(0xF), 1);
}

#[test]
fn draw_twice_restores_framebuffer() {
    let mut emulator = boot(vec![0x60, 0x00, 0x61, 0x00, 0xF0, 0x29, 0xD0, 0x15, 0xD0, 0x15]);
    run_cycles(&mut emulator, 5);
    let video = emulator.video_memory();
    for x in 0..64 {
        for y in 0..32 {
            assert!(!video[x][y]);
        }
    }
    assert_eq!(emulator.register(0xF), 1);
}

#[test]
fn draw_clips_at_screen_edge() {
    let mut emulator = boot(vec![0x60, 0x3E, 0x61, 0x00, 0x62, 0x00, 0xF2, 0x29, 0xD0, 0x15]);
    run_cycles(&mut emulator, 5);
    let glyph: [u8; 5] = [0xF0, 0x90, 0x90, 0x90, 0xF0];
    let video = emulator.video_memory();
    for x in 0..64 {
        for y in 0..32 {
            let expected = x >= 62 && y < 5 && (glyph[y] >> (7 - (x - 62))) & 1 == 1;
            assert_eq!(video[x][y], expected);
        }
    }
}

#[test]
fn draw_origin_wraps_once() {
    let mut emulator = boot(vec![0x60, 0x40, 0x61, 0x20, 0x62, 0x00, 0xF2, 0x29, 0xD0, 0x15]);
    run_cycles(&mut emulator, 5);
    let glyph: [u8; 5] = [0xF0, 0x90, 0x90, 0x90, 0xF0];
    let video = emulator.video_memory();
    for x in 0..64 {
        for y in 0..32 {
            let expected = x < 8 && y < 5 && (glyph[y] >> (7 - x)) & 1 == 1;
            assert_eq!(video[x][y], expected);
        }
    }
}

#[test]
fn clear_screen_darkens_every_pixel() {
    let mut emulator = boot(vec![0x60, 0x00, 0x61, 0x00, 0xF0, 0x29, 0xD0, 0x15, 0x00, 0xE0]);
    run_cycles(&mut emulator, 5);
    let video = emulator.video_memory();
    for x in 0..64 {
        for y in 0..32 {
            assert!(!video[x][y]);
        }
    }
    assert_eq!(emulator.program_counter(), 0x20A);
}

#[test]
fn delay_timer_counts_down_to_zero_and_stops() {
    let mut emulator = boot(vec![0x62, 0x02, 0xF2, 0x15, 0x12, 0x04]);
    run_cycles(&mut emulator, 1);
    assert_eq!(emulator.delay_timer(), 0);
    run_cycles(&mut emulator, 1);
    assert_eq!(emulator.delay_timer(), 2);
    run_cycles(&mut emulator, 1);
    assert_eq!(emulator.delay_timer(), 1);
    run_cycles(&mut emulator, 1);
    assert_eq!(emulator.delay_timer(), 0);
    run_cycles(&mut emulator, 1);
    assert_eq!(emulator.delay_timer(), 0);
}

#[test]
fn read_delay_timer_into_register() {
    let mut emulator = boot(vec![0x62, 0x05, 0xF2, 0x15, 0xF3, 0x07]);
    run_cycles(&mut emulator, 3);
    assert_eq!(emulator.register(3), emulator.delay_timer());
    assert_eq!(emulator.register(3), 4);
}

#[test]
fn bcd_store() {
    let mut emulator = boot(vec![0x60, 0x7B, 0xA3, 0x00, 0xF0, 0x33]);
    run_cycles(&mut emulator, 3);
    assert_eq!(emulator.read_ram(0x300, 3), vec![1, 2, 3]);
}

#[test]
fn store_and_load_register_range() {
    let mut emulator = boot(vec![
        0x60, 0x0A, 0x61, 0x0B, 0x62, 0x0C, 0xA3, 0x00, 0xF2, 0x55, 0x60, 0x00, 0x61, 0x00,
        0x62, 0x00, 0xF2, 0x65,
    ]);
    run_cycles(&mut emulator, 9);
    assert_eq!(emulator.read_ram(0x300, 3), vec![0x0A, 0x0B, 0x0C]);
    assert_eq!(emulator.register(0), 0x0A);
    assert_eq!(emulator.register(1), 0x0B);
    assert_eq!(emulator.register(2), 0x0C);
}

#[test]
fn skip_if_key_pressed() {
    let mut emulator = boot(vec![0x61, 0x05, 0xE1, 0x9E]);
    run_cycles(&mut emulator, 1);
    emulator.set_scancodes(vec![5]);
    run_cycles(&mut emulator, 1);
    assert_eq!(emulator.program_counter(), 0x206);
}

#[test]
fn no_skip_when_key_not_pressed() {
    let mut emulator = boot(vec![0x61, 0x05, 0xE1, 0x9E]);
    run_cycles(&mut emulator, 1);
    emulator.set_scancodes(vec![4, 7]);
    run_cycles(&mut emulator, 1);
    assert_eq!(emulator.program_counter(), 0x204);
}

#[test]
fn skip_if_key_not_pressed() {
    let mut emulator = boot(vec![0x61, 0x05, 0xE1, 0xA1]);
    run_cycles(&mut emulator, 2);
    assert_eq!(emulator.program_counter(), 0x206);

    let mut emulator = boot(vec![0x61, 0x05, 0xE1, 0xA1]);
    run_cycles(&mut emulator, 1);
    emulator.set_scancodes(vec![5]);
    run_cycles(&mut emulator, 1);
    assert_eq!(emulator.program_counter(), 0x204);
}

#[test]
fn key_matches_low_nibble_of_register() {
    let mut emulator = boot(vec![0x61, 0x15, 0xE1, 0x9E]);
    run_cycles(&mut emulator, 1);
    emulator.set_scancodes(vec![5]);
    run_cycles(&mut emulator, 1);
    assert_eq!(emulator.program_counter(), 0x206);
}

#[test]
fn keys_are_discarded_after_one_cycle() {
    let mut emulator = boot(vec![0x61, 0x05, 0xE1, 0x9E]);
    emulator.set_scancodes(vec![5]);
    run_cycles(&mut emulator, 2);
    assert_eq!(emulator.program_counter(), 0x204);
}

#[test]
fn invalid_opcode_reports_word_and_counter() {
    let mut emulator = boot(vec![0x6A, 0x05, 0xB1, 0x23]);
    run_cycles(&mut emulator, 1);
    let outcome = emulator.next_cycle();
    assert_eq!(
        outcome,
        Err(EmulatorError::InvalidOpcode { opcode: 0xB123, pc: 0x202 })
    );
    assert_eq!(emulator.program_counter(), 0x202);
}

#[test]
fn unimplemented_opcodes_are_invalid() {
    for rom in [
        vec![0xC1u8, 0x23],
        vec![0xF0, 0x0A],
        vec![0xF0, 0x18],
        vec![0x80, 0x08],
        vec![0x00, 0x00],
        vec![0xE1, 0x55],
        vec![0xF0, 0x99],
    ] {
        let mut emulator = boot(rom);
        let outcome = emulator.next_cycle();
        assert!(matches!(outcome, Err(EmulatorError::InvalidOpcode { pc: 0x200, .. })));
        assert_eq!(emulator.program_counter(), 0x200);
    }
}

#[test]
fn return_without_call_underflows() {
    let mut emulator = boot(vec![0x00, 0xEE]);
    assert_eq!(emulator.next_cycle(), Err(EmulatorError::StackUnderflow));
    assert_eq!(emulator.program_counter(), 0x200);
}

#[test]
fn seventeen_nested_calls_overflow() {
    let mut emulator = boot(vec![0x22, 0x00]);
    for _ in 0..16 {
        emulator.next_cycle().unwrap();
    }
    assert_eq!(emulator.stack_pointer(), 16);
    assert_eq!(emulator.next_cycle(), Err(EmulatorError::StackOverflow));
    assert_eq!(emulator.stack_pointer(), 16);
}

#[test]
fn bcd_past_end_of_memory_fails() {
    let mut emulator = boot(vec![0x60, 0x7B, 0xAF, 0xFE, 0xF0, 0x33]);
    run_cycles(&mut emulator, 2);
    assert_eq!(
        emulator.next_cycle(),
        Err(EmulatorError::MemoryOutOfRange { address: 0xFFE })
    );
}

#[test]
fn register_store_past_end_of_memory_fails() {
    let mut emulator = boot(vec![0xAF, 0xFD, 0xF3, 0x55]);
    run_cycles(&mut emulator, 1);
    assert_eq!(
        emulator.next_cycle(),
        Err(EmulatorError::MemoryOutOfRange { address: 0xFFD })
    );
}

#[test]
fn sprite_read_past_end_of_memory_fails() {
    let mut emulator = boot(vec![0xAF, 0xFE, 0xD0, 0x05]);
    run_cycles(&mut emulator, 1);
    assert_eq!(
        emulator.next_cycle(),
        Err(EmulatorError::MemoryOutOfRange { address: 0xFFE })
    );
}

#[test]
fn fetch_past_end_of_memory_fails() {
    let mut emulator = boot(vec![0x1F, 0xFF]);
    run_cycles(&mut emulator, 1);
    assert_eq!(
        emulator.next_cycle(),
        Err(EmulatorError::MemoryOutOfRange { address: 0xFFF })
    );
}

#[test]
fn oversized_rom_is_rejected() {
    assert_eq!(
        Emulator::new(vec![0; 3585]).err(),
        Some(EmulatorError::RomTooLarge)
    );
    assert!(Emulator::new(vec![0; 3584]).is_ok());
}

#[test]
fn rom_bytes_are_loaded_at_entry_address() {
    let emulator = boot(vec![0xDE, 0xAD, 0xBE, 0xEF]);
    assert_eq!(emulator.read_ram(0x200, 4), vec![0xDE, 0xAD, 0xBE, 0xEF]);
    assert_eq!(emulator.read_ram(0x204, 2), vec![0, 0]);
}

#[test]
fn timers_tick_even_on_failed_cycles() {
    let mut emulator = boot(vec![0x62, 0x02, 0xF2, 0x15, 0xB0, 0x00]);
    run_cycles(&mut emulator, 2);
    assert_eq!(emulator.delay_timer(), 2);
    assert!(emulator.next_cycle().is_err());
    assert_eq!(emulator.delay_timer(), 1);
    assert!(emulator.next_cycle().is_err());
    assert_eq!(emulator.delay_timer(), 0);
}
