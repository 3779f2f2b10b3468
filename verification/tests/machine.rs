use chip8::font::{get_sprite_addr, FONT, FONT_BASE};
use chip8::keypad::{Key, KeyState};
use chip8::{Chip8, Fault, Instruction, LoadError};

fn machine_running(program: &[u16]) -> Chip8 {
    let mut rom = Vec::new();
    for word in program {
        rom.push((word >> 8) as u8);
        rom.push((word & 0xFF) as u8);
    }
    let mut machine = Chip8::new();
    assert_eq!(machine.load_rom(&rom), Ok(()));
    machine
}

fn run_ticks(machine: &mut Chip8, count: usize) {
    for _ in 0..count {
        assert!(machine.tick().is_ok());
    }
}

fn lit_pixels(machine: &Chip8) -> Vec<(usize, usize)> {
    let mut lit = Vec::new();
    for x in 0..64 {
        for y in 0..32 {
            if machine.display[x][y] {
                lit.push((x, y));
            }
        }
    }
    lit
}

#[test]
fn a_new_machine_is_zeroed_but_for_the_font() {
    let machine = Chip8::new();
    assert_eq!(machine.pc(), 0x200);
    assert_eq!(machine.index(), 0);
    assert_eq!(machine.sp(), 0);
    assert_eq!(machine.delay_timer(), 0);
    assert_eq!(machine.sound_timer(), 0);
    assert_eq!(machine.registers(), [0u8; 16]);
    assert!(lit_pixels(&machine).is_empty());
    assert!(!machine.should_play_sound());
    let base = FONT_BASE as usize;
    for (address, byte) in machine.memory().iter().enumerate() {
        if address >= base && address < base + 80 {
            assert_eq!(*byte, FONT[address - base]);
        } else {
            assert_eq!(*byte, 0);
        }
    }
    assert_eq!(machine.memory()[0x050], 0xF0);
    assert_eq!(machine.memory()[0x055], 0x20);
    assert_eq!(machine.memory()[0x09F], 0x80);
}

#[test]
fn sprite_addresses_are_five_bytes_apart() {
    assert_eq!(get_sprite_addr(0x0), 0x050);
    assert_eq!(get_sprite_addr(0x1), 0x055);
    assert_eq!(get_sprite_addr(0xA), 0x082);
    assert_eq!(get_sprite_addr(0xF), 0x09B);
}

#[test]
fn loading_a_rom_places_it_at_0x200() {
    let mut machine = Chip8::new();
    assert_eq!(machine.load_rom(&[0x12, 0x34, 0x56]), Ok(()));
    assert_eq!(machine.memory()[0x1FF], 0);
    assert_eq!(machine.memory()[0x200], 0x12);
    assert_eq!(machine.memory()[0x201], 0x34);
    assert_eq!(machine.memory()[0x202], 0x56);
    assert_eq!(machine.memory()[0x203], 0);
    assert_eq!(machine.current_instruction(), Ok(0x1234));
    assert_eq!(machine.pc(), 0x200);
}

#[test]
fn a_rom_of_the_greatest_size_fills_memory_to_its_end() {
    let mut machine = Chip8::new();
    let rom = vec![0xAB; 3584];
    assert_eq!(machine.load_rom(&rom), Ok(()));
    assert_eq!(machine.memory()[0x200], 0xAB);
    assert_eq!(machine.memory()[0xFFF], 0xAB);
    assert_eq!(machine.memory()[0x1FF], 0);
}

#[test]
fn an_oversized_rom_is_refused_before_memory_changes() {
    let mut machine = Chip8::new();
    let before = *machine.memory();
    let rom = vec![0xFF; 3585];
    assert_eq!(machine.load_rom(&rom), Err(LoadError::TooLarge));
    assert_eq!(*machine.memory(), before);
    assert_eq!(machine.memory()[0x200], 0);
    assert_eq!(machine.pc(), 0x200);
}

#[test]
fn fetch_reads_big_endian_and_advances_by_two() {
    let mut machine = machine_running(&[0xA123, 0x6005]);
    assert_eq!(machine.fetch(), Ok(0xA123));
    assert_eq!(machine.pc(), 0x202);
    assert_eq!(machine.index(), 0);
    assert_eq!(machine.fetch(), Ok(0x6005));
    assert_eq!(machine.pc(), 0x204);
    assert_eq!(machine.registers(), [0u8; 16]);
}

#[test]
fn add_byte_twice_wraps_without_a_flag() {
    // V3 = 0xF0; V3 += 0x90 twice.
    let mut machine = machine_running(&[0x63F0, 0x7390, 0x7390]);
    run_ticks(&mut machine, 3);
    assert_eq!(machine.registers()[3], 0x10);
    assert_eq!(machine.registers()[0xF], 0);
    for x in 0u16..16 {
        for nn in [0u16, 1, 0x7F, 0x80, 0xFF] {
            let load = 0x6000 | (x << 8) | 0xC8;
            let add = 0x7000 | (x << 8) | nn;
            let mut machine = machine_running(&[load, add, add]);
            run_ticks(&mut machine, 3);
            let mut expected = [0u8; 16];
            expected[x as usize] = ((0xC8 + 2 * nn) % 256) as u8;
            assert_eq!(machine.registers(), expected);
        }
    }
}

#[test]
fn add_registers_sets_the_carry() {
    let mut machine = machine_running(&[0x61FF, 0x6201, 0x8124]);
    run_ticks(&mut machine, 3);
    assert_eq!(machine.registers()[1], 0x00);
    assert_eq!(machine.registers()[0xF], 1);

    let mut machine = machine_running(&[0x6101, 0x6201, 0x8124]);
    run_ticks(&mut machine, 3);
    assert_eq!(machine.registers()[1], 0x02);
    assert_eq!(machine.registers()[0xF], 0);
}

#[test]
fn subtract_sets_the_flag_when_there_is_no_borrow() {
    let mut machine = machine_running(&[0x6105, 0x6203, 0x8125]);
    run_ticks(&mut machine, 3);
    assert_eq!(machine.registers()[1], 0x02);
    assert_eq!(machine.registers()[0xF], 1);

    let mut machine = machine_running(&[0x6103, 0x6205, 0x8125]);
    run_ticks(&mut machine, 3);
    assert_eq!(machine.registers()[1], 0xFE);
    assert_eq!(machine.registers()[0xF], 0);

    // Equal operands do not borrow.
    let mut machine = machine_running(&[0x6107, 0x6207, 0x8125]);
    run_ticks(&mut machine, 3);
    assert_eq!(machine.registers()[1], 0x00);
    assert_eq!(machine.registers()[0xF], 1);
}

#[test]
fn reverse_subtract_sets_the_flag_when_there_is_no_borrow() {
    let mut machine = machine_running(&[0x6103, 0x6205, 0x8127]);
    run_ticks(&mut machine, 3);
    assert_eq!(machine.registers()[1], 0x02);
    assert_eq!(machine.registers()[0xF], 1);

    let mut machine = machine_running(&[0x6105, 0x6203, 0x8127]);
    run_ticks(&mut machine, 3);
    assert_eq!(machine.registers()[1], 0xFE);
    assert_eq!(machine.registers()[0xF], 0);
}

#[test]
fn shift_right_keeps_the_low_bit_in_the_flag() {
    let mut machine = machine_running(&[0x6103, 0x8126]);
    run_ticks(&mut machine, 2);
    assert_eq!(machine.registers()[1], 0x01);
    assert_eq!(machine.registers()[0xF], 1);

    let mut machine = machine_running(&[0x61FE, 0x8126]);
    run_ticks(&mut machine, 2);
    assert_eq!(machine.registers()[1], 0x7F);
    assert_eq!(machine.registers()[0xF], 0);
}

#[test]
fn shift_left_keeps_the_high_bit_in_the_flag() {
    let mut machine = machine_running(&[0x6181, 0x812E]);
    run_ticks(&mut machine, 2);
    assert_eq!(machine.registers()[1], 0x02);
    assert_eq!(machine.registers()[0xF], 1);

    let mut machine = machine_running(&[0x6141, 0x812E]);
    run_ticks(&mut machine, 2);
    assert_eq!(machine.registers()[1], 0x82);
    assert_eq!(machine.registers()[0xF], 0);
}

#[test]
fn the_flag_wins_when_it_is_also_the_target() {
    // VF = 0xFF; V1 = 1; VF += V1 leaves the carry in VF.
    let mut machine = machine_running(&[0x6FFF, 0x6101, 0x8F14]);
    run_ticks(&mut machine, 3);
    assert_eq!(machine.registers()[0xF], 1);
}

#[test]
fn copy_and_bitwise_instructions() {
    let mut machine =
        machine_running(&[0x61CA, 0x62AC, 0x8310, 0x8321, 0x8410, 0x8422, 0x8510, 0x8523]);
    run_ticks(&mut machine, 8);
    let v = machine.registers();
    assert_eq!(v[1], 0xCA);
    assert_eq!(v[2], 0xAC);
    assert_eq!(v[3], 0xCA | 0xAC);
    assert_eq!(v[4], 0xCA & 0xAC);
    assert_eq!(v[5], 0xCA ^ 0xAC);
    assert_eq!(v[0xF], 0);
}

#[test]
fn jump_sets_the_program_counter() {
    let mut machine = machine_running(&[0x1ABC]);
    assert_eq!(machine.tick(), Ok(Instruction::Jp { addr: 0xABC }));
    assert_eq!(machine.pc(), 0xABC);
}

#[test]
fn jump_with_offset_adds_v0() {
    let mut machine = machine_running(&[0x60FF, 0xBFFF]);
    run_ticks(&mut machine, 2);
    assert_eq!(machine.pc(), 0xFFF + 0xFF);
}

#[test]
fn call_then_return_comes_back_behind_the_call() {
    // 0x200: CALL 0x206; 0x202: (next); 0x206: RET
    let mut machine = machine_running(&[0x2206, 0x0000, 0x0000, 0x00EE]);
    assert_eq!(machine.tick(), Ok(Instruction::Call { addr: 0x206 }));
    assert_eq!(machine.pc(), 0x206);
    assert_eq!(machine.sp(), 1);
    assert_eq!(machine.tick(), Ok(Instruction::Ret));
    assert_eq!(machine.pc(), 0x202);
    assert_eq!(machine.sp(), 0);
}

#[test]
fn nested_calls_return_in_reverse_order() {
    // 0x200: CALL 0x204; 0x202: JP 0x202; 0x204: CALL 0x208; 0x206: RET; 0x208: RET
    let mut machine = machine_running(&[0x2204, 0x1202, 0x2208, 0x00EE, 0x00EE]);
    run_ticks(&mut machine, 2);
    assert_eq!(machine.pc(), 0x208);
    assert_eq!(machine.sp(), 2);
    run_ticks(&mut machine, 1);
    assert_eq!(machine.pc(), 0x206);
    run_ticks(&mut machine, 1);
    assert_eq!(machine.pc(), 0x202);
    assert_eq!(machine.sp(), 0);
}

#[test]
fn a_return_without_a_call_is_a_fault_that_changes_nothing() {
    let mut machine = machine_running(&[0x00EE]);
    let memory = *machine.memory();
    assert_eq!(machine.tick(), Err(Fault::StackUnderflow));
    assert_eq!(machine.pc(), 0x200);
    assert_eq!(machine.sp(), 0);
    assert_eq!(*machine.memory(), memory);
    assert_eq!(machine.registers(), [0u8; 16]);
}

#[test]
fn the_seventeenth_nested_call_is_a_fault() {
    // A subroutine that calls itself.
    let mut machine = machine_running(&[0x2200]);
    for depth in 1..=16 {
        assert_eq!(machine.tick(), Ok(Instruction::Call { addr: 0x200 }));
        assert_eq!(machine.sp(), depth);
        assert_eq!(machine.pc(), 0x200);
    }
    assert_eq!(machine.tick(), Err(Fault::StackOverflow));
    assert_eq!(machine.sp(), 16);
    assert_eq!(machine.pc(), 0x200);
}

#[test]
fn a_program_counter_at_the_end_of_memory_is_a_fault() {
    let mut machine = machine_running(&[0x1FFF]);
    run_ticks(&mut machine, 1);
    assert_eq!(machine.pc(), 0xFFF);
    assert_eq!(machine.current_instruction(), Err(Fault::PcOutOfRange));
    assert_eq!(machine.fetch(), Err(Fault::PcOutOfRange));
    assert_eq!(machine.tick(), Err(Fault::PcOutOfRange));
    assert_eq!(machine.pc(), 0xFFF);
}

#[test]
fn the_last_word_of_memory_can_be_fetched() {
    let mut rom = vec![0u8; 3584];
    rom[0] = 0x1F;
    rom[1] = 0xFE;
    rom[3582] = 0x6A;
    rom[3583] = 0x55;
    let mut machine = Chip8::new();
    assert_eq!(machine.load_rom(&rom), Ok(()));
    run_ticks(&mut machine, 1);
    assert_eq!(machine.pc(), 0xFFE);
    assert_eq!(machine.tick(), Ok(Instruction::LdByte { x: 0xA, byte: 0x55 }));
    assert_eq!(machine.pc(), 0x1000);
    assert_eq!(machine.registers()[0xA], 0x55);
    assert_eq!(machine.tick(), Err(Fault::PcOutOfRange));
}

#[test]
fn skips_on_a_byte() {
    // V1 = 7
    let mut machine = machine_running(&[0x6107, 0x3107]);
    run_ticks(&mut machine, 2);
    assert_eq!(machine.pc(), 0x206);
    let mut machine = machine_running(&[0x6107, 0x3108]);
    run_ticks(&mut machine, 2);
    assert_eq!(machine.pc(), 0x204);
    let mut machine = machine_running(&[0x6107, 0x4108]);
    run_ticks(&mut machine, 2);
    assert_eq!(machine.pc(), 0x206);
    let mut machine = machine_running(&[0x6107, 0x4107]);
    run_ticks(&mut machine, 2);
    assert_eq!(machine.pc(), 0x204);
}

#[test]
fn skips_on_a_register() {
    let mut machine = machine_running(&[0x6107, 0x6207, 0x5120]);
    run_ticks(&mut machine, 3);
    assert_eq!(machine.pc(), 0x208);
    let mut machine = machine_running(&[0x6107, 0x6208, 0x5120]);
    run_ticks(&mut machine, 3);
    assert_eq!(machine.pc(), 0x206);
    let mut machine = machine_running(&[0x6107, 0x6208, 0x9120]);
    run_ticks(&mut machine, 3);
    assert_eq!(machine.pc(), 0x208);
    let mut machine = machine_running(&[0x6107, 0x6207, 0x9120]);
    run_ticks(&mut machine, 3);
    assert_eq!(machine.pc(), 0x206);
}

#[test]
fn skips_on_a_key() {
    // V1 = 0xB; SKP V1
    let mut machine = machine_running(&[0x610B, 0xE19E]);
    machine.keypad.set_key_state(Key::KeyB, KeyState::Down);
    run_ticks(&mut machine, 2);
    assert_eq!(machine.pc(), 0x206);
    let mut machine = machine_running(&[0x610B, 0xE19E]);
    run_ticks(&mut machine, 2);
    assert_eq!(machine.pc(), 0x204);
    // SKNP V1
    let mut machine = machine_running(&[0x610B, 0xE1A1]);
    run_ticks(&mut machine, 2);
    assert_eq!(machine.pc(), 0x206);
    let mut machine = machine_running(&[0x610B, 0xE1A1]);
    machine.keypad.set_key_state(Key::KeyB, KeyState::Down);
    run_ticks(&mut machine, 2);
    assert_eq!(machine.pc(), 0x204);
}

#[test]
fn a_key_number_above_fifteen_names_key_zero() {
    let mut machine = machine_running(&[0x611B, 0xE19E]);
    machine.keypad.set_key_state(Key::Key0, KeyState::Down);
    run_ticks(&mut machine, 2);
    assert_eq!(machine.pc(), 0x206);
    let mut machine = machine_running(&[0x611B, 0xE19E]);
    machine.keypad.set_key_state(Key::KeyB, KeyState::Down);
    run_ticks(&mut machine, 2);
    assert_eq!(machine.pc(), 0x204);
}

#[test]
fn load_and_add_to_the_index_register() {
    let mut machine = machine_running(&[0xAFFF, 0x61FF, 0xF11E]);
    run_ticks(&mut machine, 1);
    assert_eq!(machine.index(), 0xFFF);
    run_ticks(&mut machine, 2);
    // No mask to twelve bits.
    assert_eq!(machine.index(), 0x10FE);
    assert_eq!(machine.registers()[0xF], 0);
}

#[test]
fn adding_to_the_index_register_wraps_at_sixteen_bits() {
    // I = 0xFFF, then add 0xFF until it passes 0xFFFF.
    let mut program = vec![0xAFFF, 0x61FF];
    let additions = (0x1_0000 - 0xFFF) / 0xFF + 1;
    for _ in 0..additions {
        program.push(0xF11E);
    }
    let mut machine = machine_running(&program);
    run_ticks(&mut machine, program.len());
    assert_eq!(machine.index() as usize, (0xFFF + additions * 0xFF) % 0x1_0000);
}

#[test]
fn font_instruction_points_at_the_digit() {
    let mut machine = machine_running(&[0x610A, 0xF129]);
    run_ticks(&mut machine, 2);
    assert_eq!(machine.index(), 0x082);
    let at = machine.index() as usize;
    assert_eq!(machine.memory()[at..at + 5], [0xF0, 0x90, 0xF0, 0x90, 0x90]);
}

#[test]
fn decimal_digits_are_stored_at_the_index() {
    // V1 = 254; I = 0x300; BCD
    let mut machine = machine_running(&[0x61FE, 0xA300, 0xF133]);
    run_ticks(&mut machine, 3);
    assert_eq!(machine.memory()[0x300..0x303], [2, 5, 4]);
    assert_eq!(machine.memory()[0x303], 0);
    assert_eq!(machine.index(), 0x300);
    let mut machine = machine_running(&[0x6107, 0xA300, 0xF133]);
    run_ticks(&mut machine, 3);
    assert_eq!(machine.memory()[0x300..0x303], [0, 0, 7]);
}

#[test]
fn registers_are_stored_and_loaded_through_the_index() {
    // V0..V2 = 11,22,33; I = 0x300; store V0..=V2
    let mut machine = machine_running(&[
        0x600B, 0x6116, 0x6221, 0x6363, 0xA300, 0xF255, 0x6000, 0x6100, 0x6200, 0x6300, 0xF165,
    ]);
    run_ticks(&mut machine, 6);
    assert_eq!(machine.memory()[0x300..0x304], [11, 22, 33, 0]);
    assert_eq!(machine.index(), 0x300);
    run_ticks(&mut machine, 5);
    let v = machine.registers();
    assert_eq!(v[0], 11);
    assert_eq!(v[1], 22);
    assert_eq!(v[2], 0);
    assert_eq!(v[3], 0);
    assert_eq!(machine.index(), 0x300);
}

#[test]
fn memory_access_beyond_the_end_is_a_fault() {
    // I = 0xFFF; store V0..=V1 would write 0x1000.
    let mut machine = machine_running(&[0xAFFF, 0xF155]);
    run_ticks(&mut machine, 1);
    let memory = *machine.memory();
    assert_eq!(machine.tick(), Err(Fault::MemoryOutOfRange));
    assert_eq!(machine.pc(), 0x202);
    assert_eq!(*machine.memory(), memory);
    // A single register still fits.
    let mut machine = machine_running(&[0x6042, 0xAFFF, 0xF055]);
    run_ticks(&mut machine, 3);
    assert_eq!(machine.memory()[0xFFF], 0x42);

    let mut machine = machine_running(&[0xAFFF, 0xF165]);
    run_ticks(&mut machine, 1);
    assert_eq!(machine.tick(), Err(Fault::MemoryOutOfRange));
    let mut machine = machine_running(&[0xAFFE, 0xF033]);
    run_ticks(&mut machine, 1);
    assert_eq!(machine.tick(), Err(Fault::MemoryOutOfRange));
    let mut machine = machine_running(&[0xAFFF, 0xD002]);
    run_ticks(&mut machine, 1);
    assert_eq!(machine.tick(), Err(Fault::MemoryOutOfRange));
    assert!(lit_pixels(&machine).is_empty());
}

#[test]
fn timers_are_set_from_and_read_into_registers() {
    let mut machine = machine_running(&[0x6105, 0xF115, 0xF118, 0xF207]);
    run_ticks(&mut machine, 4);
    assert_eq!(machine.delay_timer(), 5);
    assert_eq!(machine.sound_timer(), 5);
    assert_eq!(machine.registers()[2], 5);
}

#[test]
fn timers_count_down_and_stop_at_zero() {
    let mut machine = machine_running(&[0x6103, 0xF118]);
    assert_eq!(machine.delay_timer(), 0);
    machine.tick_timers();
    assert_eq!(machine.delay_timer(), 0);
    assert_eq!(machine.sound_timer(), 0);
    run_ticks(&mut machine, 2);
    assert_eq!(machine.sound_timer(), 3);
    assert!(machine.should_play_sound());
    machine.tick_timers();
    assert_eq!(machine.sound_timer(), 2);
    assert!(machine.should_play_sound());
    machine.tick_timers();
    assert_eq!(machine.sound_timer(), 1);
    assert!(machine.should_play_sound());
    machine.tick_timers();
    assert_eq!(machine.sound_timer(), 0);
    assert!(!machine.should_play_sound());
    machine.tick_timers();
    assert_eq!(machine.sound_timer(), 0);
    assert_eq!(machine.delay_timer(), 0);
}

#[test]
fn the_delay_timer_counts_down_on_its_own() {
    let mut machine = machine_running(&[0x6102, 0xF115]);
    run_ticks(&mut machine, 2);
    machine.tick_timers();
    assert_eq!(machine.delay_timer(), 1);
    assert_eq!(machine.sound_timer(), 0);
    assert!(!machine.should_play_sound());
}

#[test]
fn wait_for_key_repeats_until_a_key_is_released() {
    let mut machine = machine_running(&[0xF30A]);
    assert_eq!(machine.tick(), Ok(Instruction::LdVxKey { x: 3 }));
    assert_eq!(machine.pc(), 0x200);
    // A held key is no release.
    machine.keypad.set_key_state(Key::Key9, KeyState::Down);
    assert_eq!(machine.tick(), Ok(Instruction::LdVxKey { x: 3 }));
    assert_eq!(machine.pc(), 0x200);
    assert_eq!(machine.registers()[3], 0);
    machine.keypad.set_key_state(Key::Key9, KeyState::Up);
    assert_eq!(machine.tick(), Ok(Instruction::LdVxKey { x: 3 }));
    assert_eq!(machine.pc(), 0x202);
    assert_eq!(machine.registers()[3], 9);
    assert_eq!(machine.keypad.get_first_key_released(), None);
}

#[test]
fn a_release_does_not_outlive_the_tick() {
    // 0x200: V0 = 1; 0x202: wait for key
    let mut machine = machine_running(&[0x6001, 0xF30A]);
    machine.keypad.set_key_state(Key::Key4, KeyState::Down);
    machine.keypad.set_key_state(Key::Key4, KeyState::Up);
    assert_eq!(machine.keypad.get_first_key_released(), Some(Key::Key4));
    run_ticks(&mut machine, 1);
    assert_eq!(machine.keypad.get_first_key_released(), None);
    run_ticks(&mut machine, 1);
    assert_eq!(machine.pc(), 0x202);
    assert_eq!(machine.registers()[3], 0);
}

#[test]
fn drawing_a_sprite_twice_erases_it_and_collides() {
    // I = 0x300 where the byte 0xFF lies; draw one row at (V0, V1) = (8, 4).
    let mut machine = machine_running(&[0x60FF, 0xA300, 0xF055, 0x6008, 0x6104, 0xD011, 0xD011]);
    run_ticks(&mut machine, 6);
    let expected: Vec<(usize, usize)> = (8..16).map(|x| (x, 4)).collect();
    assert_eq!(lit_pixels(&machine), expected);
    assert_eq!(machine.registers()[0xF], 0);
    run_ticks(&mut machine, 1);
    assert!(lit_pixels(&machine).is_empty());
    assert_eq!(machine.registers()[0xF], 1);
}

#[test]
fn a_draw_resets_the_flag_when_nothing_collides() {
    let mut machine = machine_running(&[0x60FF, 0xA300, 0xF055, 0x6F01, 0x6008, 0x6104, 0xD011]);
    run_ticks(&mut machine, 7);
    assert_eq!(machine.registers()[0xF], 0);
}

#[test]
fn a_sprite_is_cut_off_at_the_right_edge() {
    let mut machine = machine_running(&[0x60FF, 0xA300, 0xF055, 0x603C, 0x6105, 0xD011]);
    run_ticks(&mut machine, 6);
    assert_eq!(lit_pixels(&machine), vec![(60, 5), (61, 5), (62, 5), (63, 5)]);
    for x in 0..60 {
        for y in 0..32 {
            assert!(!machine.display[x][y]);
        }
    }
    assert_eq!(machine.registers()[0xF], 0);
}

#[test]
fn a_sprite_is_cut_off_at_the_bottom_edge() {
    // The digit 0 of the font, five rows high, drawn at row 30.
    let mut machine = machine_running(&[0x6000, 0xF029, 0x6002, 0x611E, 0xD015]);
    run_ticks(&mut machine, 5);
    // Rows F0 and 90: the top edge and the two sides.
    assert_eq!(
        lit_pixels(&machine),
        vec![(2, 30), (2, 31), (3, 30), (4, 30), (5, 30), (5, 31)]
    );
}

#[test]
fn the_origin_of_a_sprite_wraps_round() {
    // (V0, V1) = (70, 35) is the same origin as (6, 3).
    let mut machine = machine_running(&[0x60FF, 0xA300, 0xF055, 0x6046, 0x6123, 0xD011]);
    run_ticks(&mut machine, 6);
    let expected: Vec<(usize, usize)> = (6..14).map(|x| (x, 3)).collect();
    assert_eq!(lit_pixels(&machine), expected);
}

#[test]
fn a_sprite_is_drawn_highest_bit_first() {
    // The byte 0xA0 lights columns 0 and 2 of the sprite.
    let mut machine = machine_running(&[0x60A0, 0xA300, 0xF055, 0x6000, 0x6100, 0xD011]);
    run_ticks(&mut machine, 6);
    assert_eq!(lit_pixels(&machine), vec![(0, 0), (2, 0)]);
}

#[test]
fn clearing_the_display_turns_every_pixel_off() {
    let mut machine = machine_running(&[0x6000, 0xF029, 0xD005, 0x00E0]);
    run_ticks(&mut machine, 3);
    assert!(!lit_pixels(&machine).is_empty());
    assert_eq!(machine.tick(), Ok(Instruction::Cls));
    assert!(lit_pixels(&machine).is_empty());
}

#[test]
fn an_unknown_instruction_only_advances_the_program_counter() {
    let mut machine = machine_running(&[0x6142, 0xF0FF]);
    run_ticks(&mut machine, 1);
    let memory = *machine.memory();
    let registers = machine.registers();
    assert_eq!(machine.tick(), Ok(Instruction::Unknown { word: 0xF0FF }));
    assert_eq!(machine.pc(), 0x204);
    assert_eq!(*machine.memory(), memory);
    assert_eq!(machine.registers(), registers);
    assert_eq!(machine.index(), 0);
    assert_eq!(machine.sp(), 0);
    assert!(lit_pixels(&machine).is_empty());
}

#[test]
fn a_random_byte_is_masked() {
    let mut machine = machine_running(&[0x61FF, 0xC100, 0xC20F]);
    run_ticks(&mut machine, 2);
    assert_eq!(machine.registers()[1], 0);
    for _ in 0..50 {
        let mut machine = machine_running(&[0xC20F]);
        assert_eq!(machine.tick(), Ok(Instruction::Rnd { x: 2, byte: 0x0F }));
        assert!(machine.registers()[2] <= 0x0F);
        assert_eq!(machine.pc(), 0x202);
    }
}

#[test]
fn a_given_random_byte_is_masked_exactly() {
    let mut machine = Chip8::new();
    assert_eq!(machine.execute_with(0xC53C, 0xA5), Ok(Instruction::Rnd { x: 5, byte: 0x3C }));
    assert_eq!(machine.registers()[5], 0xA5 & 0x3C);
    assert_eq!(machine.pc(), 0x200);
    let mut machine = machine_running(&[0xC7F0]);
    assert_eq!(machine.tick_with(0xFF), Ok(Instruction::Rnd { x: 7, byte: 0xF0 }));
    assert_eq!(machine.registers()[7], 0xF0);
    assert_eq!(machine.pc(), 0x202);
}

#[test]
fn random_bytes_vary() {
    let mut seen = std::collections::HashSet::new();
    for _ in 0..200 {
        let mut machine = Chip8::new();
        assert!(machine.execute(0xC0FF).is_ok());
        seen.insert(machine.registers()[0]);
    }
    assert!(seen.len() > 1);
}

#[test]
fn execute_runs_a_word_without_fetching() {
    let mut machine = Chip8::new();
    assert_eq!(machine.execute(0x6A33), Ok(Instruction::LdByte { x: 0xA, byte: 0x33 }));
    assert_eq!(machine.registers()[0xA], 0x33);
    assert_eq!(machine.pc(), 0x200);
    assert_eq!(machine.execute(0x3A33), Ok(Instruction::SeByte { x: 0xA, byte: 0x33 }));
    assert_eq!(machine.pc(), 0x202);
    assert_eq!(machine.execute(0x00EE), Err(Fault::StackUnderflow));
}

#[test]
fn a_skip_or_rewind_out_of_sixteen_bits_is_a_fault() {
    // With the program counter at zero there is nothing to rewind to.
    let mut machine = Chip8::new();
    assert_eq!(machine.execute(0x1000), Ok(Instruction::Jp { addr: 0 }));
    assert_eq!(machine.execute(0xF00A), Err(Fault::PcOutOfRange));
    assert_eq!(machine.pc(), 0);
}

#[test]
fn errors_describe_themselves() {
    assert_eq!(LoadError::TooLarge.message(), "ROM too large");
    assert_eq!(Fault::PcOutOfRange.message(), "program counter out of range");
    assert_eq!(Fault::StackOverflow.message(), "call stack overflow");
    assert_eq!(Fault::StackUnderflow.message(), "return with an empty call stack");
    assert_eq!(Fault::MemoryOutOfRange.message(), "memory access out of range");
}

#[test]
fn the_display_changes_by_clear_and_draw_alone() {
    let mut machine = machine_running(&[
        0x6000, 0xF029, 0xD005, 0x6122, 0x8104, 0xF133, 0x2210, 0x0000, 0x00EE,
    ]);
    run_ticks(&mut machine, 3);
    let lit = lit_pixels(&machine);
    assert!(!lit.is_empty());
    run_ticks(&mut machine, 4);
    assert_eq!(lit_pixels(&machine), lit);
}

#[test]
fn the_machine_passes_key_states_to_its_keypad() {
    let mut machine = machine_running(&[0x6107, 0xE19E, 0x0000, 0xF20A]);
    machine.set_key_state(Key::Key7, KeyState::Down);
    assert!(machine.keypad.is_key_down(Key::Key7));
    run_ticks(&mut machine, 2);
    assert_eq!(machine.pc(), 0x206);
    machine.set_key_state(Key::Key7, KeyState::Up);
    assert_eq!(machine.keypad.get_first_key_released(), Some(Key::Key7));
    run_ticks(&mut machine, 1);
    assert_eq!(machine.pc(), 0x208);
    assert_eq!(machine.registers()[2], 7);
}

#[test]
fn the_accessors_show_the_display_and_the_keypad() {
    let mut machine = machine_running(&[0x60A0, 0xA300, 0xF055, 0x6000, 0x6100, 0xD011]);
    machine.set_key_state(Key::KeyE, KeyState::Down);
    run_ticks(&mut machine, 6);
    assert!(machine.pixels()[0][0]);
    assert!(!machine.pixels()[1][0]);
    assert!(machine.pixels()[2][0]);
    assert_eq!(*machine.pixels(), machine.display);
    assert!(machine.keys().is_key_down(Key::KeyE));
    assert!(machine.keys().is_key_up(Key::KeyD));
}
