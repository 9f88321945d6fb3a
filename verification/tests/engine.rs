use chip8::{Chip8, CHIP_HEIGHT, CHIP_WIDTH, FONT, NKEYS, RAMBYTES};

fn machine(rom: &[u8]) -> Chip8 {
    let mut chip8 = Chip8::new();
    chip8.load_rom(rom);
    chip8
}

fn run(chip8: &mut Chip8, ticks: usize) {
    for _ in 0..ticks {
        assert!(chip8.can_tick());
        chip8.tick_with(0);
    }
}

fn lit(chip8: &Chip8) -> Vec<(usize, usize)> {
    let vram = chip8.get_vram();
    let mut cells = Vec::new();
    for r in 0..CHIP_HEIGHT {
        for c in 0..CHIP_WIDTH {
            if vram[r][c] {
                cells.push((r, c));
            }
        }
    }
    cells
}

fn keys(down: &[usize]) -> [bool; NKEYS] {
    let mut keyboard = [false; NKEYS];
    for &k in down {
        keyboard[k] = true;
    }
    keyboard
}

#[test]
fn new_machine_is_zeroed_with_font() {
    let chip8 = Chip8::new();
    assert_eq!(chip8.pc(), 0x200);
    assert_eq!(chip8.index(), 0);
    assert_eq!(chip8.registers(), [0u8; NKEYS]);
    assert_eq!(chip8.stack(), Vec::<usize>::new());
    assert_eq!(chip8.delay_timer(), 0);
    assert_eq!(chip8.sound_timer(), 0);
    assert!(!chip8.should_beep());
    assert!(lit(&chip8).is_empty());
    let ram = chip8.memory();
    assert_eq!(ram.len(), RAMBYTES);
    assert_eq!(&ram[..80], &FONT[..]);
    assert!(ram[80..].iter().all(|&byte| byte == 0));
}

#[test]
fn font_has_the_glyphs_of_zero_and_f() {
    assert_eq!(&FONT[0..5], &[0xF0, 0x90, 0x90, 0x90, 0xF0]);
    assert_eq!(&FONT[5..10], &[0x20, 0x60, 0x20, 0x20, 0x70]);
    assert_eq!(&FONT[75..80], &[0xF0, 0x80, 0xF0, 0x80, 0x80]);
}

#[test]
fn load_rom_copies_to_program_area() {
    let chip8 = machine(&[0x12, 0x34, 0x56]);
    let ram = chip8.memory();
    assert_eq!(&ram[0x200..0x203], &[0x12, 0x34, 0x56]);
    assert_eq!(ram[0x203], 0);
    assert_eq!(&ram[..80], &FONT[..]);
    assert_eq!(chip8.pc(), 0x200);
}

#[test]
fn load_rom_drops_what_does_not_fit() {
    let rom: Vec<u8> = (0..5000usize).map(|k| (k % 251) as u8 + 1).collect();
    let chip8 = machine(&rom);
    let ram = chip8.memory();
    for k in 0..(RAMBYTES - 0x200) {
        assert_eq!(ram[0x200 + k], rom[k]);
    }
    assert_eq!(&ram[..80], &FONT[..]);
    assert!(ram[80..0x200].iter().all(|&byte| byte == 0));
}

#[test]
fn load_rom_of_exactly_the_free_memory() {
    let rom = vec![0xAB; RAMBYTES - 0x200];
    let chip8 = machine(&rom);
    let ram = chip8.memory();
    assert_eq!(ram[RAMBYTES - 1], 0xAB);
    assert_eq!(ram[0x200], 0xAB);
    assert_eq!(ram[0x1FF], 0);
}

#[test]
fn load_rom_leaves_registers_alone() {
    let mut chip8 = machine(&[0x6A, 0x42]);
    run(&mut chip8, 1);
    chip8.load_rom(&[0x00, 0xE0]);
    assert_eq!(chip8.registers()[0xA], 0x42);
    assert_eq!(chip8.pc(), 0x202);
    assert_eq!(&chip8.memory()[0x200..0x202], &[0x00, 0xE0]);
}

#[test]
fn ordinary_instruction_advances_by_two() {
    let mut chip8 = machine(&[0x61, 0x07, 0xA1, 0x23]);
    run(&mut chip8, 1);
    assert_eq!(chip8.pc(), 0x202);
    assert_eq!(chip8.registers()[1], 7);
    run(&mut chip8, 1);
    assert_eq!(chip8.pc(), 0x204);
    assert_eq!(chip8.index(), 0x123);
}

#[test]
fn unknown_word_is_passed_over() {
    let mut chip8 = machine(&[0x00, 0x00, 0x51, 0x21, 0x8A, 0xB8, 0xE1, 0x9F, 0xF1, 0xFF]);
    for k in 1..=5 {
        let before = (chip8.registers(), chip8.index(), chip8.stack(), chip8.memory());
        run(&mut chip8, 1);
        assert_eq!(chip8.pc(), 0x200 + 2 * k);
        assert_eq!((chip8.registers(), chip8.index(), chip8.stack(), chip8.memory()), before);
        assert!(lit(&chip8).is_empty());
    }
}

#[test]
fn jump_sets_program_counter() {
    let mut chip8 = machine(&[0x1A, 0xBC]);
    run(&mut chip8, 1);
    assert_eq!(chip8.pc(), 0xABC);
    assert_eq!(chip8.stack(), Vec::<usize>::new());
}

#[test]
fn jump_with_offset_adds_register_zero() {
    let mut chip8 = machine(&[0x60, 0xFF, 0xBF, 0x00]);
    run(&mut chip8, 2);
    assert_eq!(chip8.pc(), 0xF00 + 0xFF);
}

#[test]
fn call_then_return_restores_program_counter() {
    // 0x200: call 0x206; 0x206: return
    let mut chip8 = machine(&[0x22, 0x06, 0x00, 0x00, 0x00, 0x00, 0x00, 0xEE]);
    run(&mut chip8, 1);
    assert_eq!(chip8.pc(), 0x206);
    assert_eq!(chip8.stack(), vec![0x202]);
    run(&mut chip8, 1);
    assert_eq!(chip8.pc(), 0x202);
    assert_eq!(chip8.stack(), Vec::<usize>::new());
}

#[test]
fn nested_calls_return_in_reverse_order() {
    // 0x200: call 0x204; 0x202: jump 0x202; 0x204: call 0x208; 0x206: return;
    // 0x208: return
    let mut chip8 = machine(&[0x22, 0x04, 0x12, 0x02, 0x22, 0x08, 0x00, 0xEE, 0x00, 0xEE]);
    run(&mut chip8, 2);
    assert_eq!(chip8.pc(), 0x208);
    assert_eq!(chip8.stack(), vec![0x202, 0x206]);
    run(&mut chip8, 1);
    assert_eq!(chip8.pc(), 0x206);
    assert_eq!(chip8.stack(), vec![0x202]);
    run(&mut chip8, 1);
    assert_eq!(chip8.pc(), 0x202);
    assert_eq!(chip8.stack(), Vec::<usize>::new());
}

#[test]
fn repeated_call_return_pairs_do_not_grow_the_stack() {
    // 0x200: call 0x204; 0x202: jump 0x200; 0x204: return
    let mut chip8 = machine(&[0x22, 0x04, 0x12, 0x00, 0x00, 0xEE]);
    for _ in 0..100 {
        run(&mut chip8, 2);
        assert_eq!(chip8.pc(), 0x202);
        assert_eq!(chip8.stack(), Vec::<usize>::new());
        run(&mut chip8, 1);
        assert_eq!(chip8.pc(), 0x200);
    }
}

#[test]
fn return_with_empty_stack_changes_nothing() {
    let mut chip8 = machine(&[0x00, 0xEE, 0x61, 0x01]);
    run(&mut chip8, 1);
    assert_eq!(chip8.pc(), 0x202);
    assert_eq!(chip8.stack(), Vec::<usize>::new());
    run(&mut chip8, 1);
    assert_eq!(chip8.registers()[1], 1);
}

#[test]
fn skip_if_equal_immediate() {
    let mut chip8 = machine(&[0x63, 0x2A, 0x33, 0x2A]);
    run(&mut chip8, 2);
    assert_eq!(chip8.pc(), 0x206);
    let mut chip8 = machine(&[0x63, 0x2A, 0x33, 0x2B]);
    run(&mut chip8, 2);
    assert_eq!(chip8.pc(), 0x204);
}

#[test]
fn skip_if_not_equal_immediate() {
    let mut chip8 = machine(&[0x63, 0x2A, 0x43, 0x2B]);
    run(&mut chip8, 2);
    assert_eq!(chip8.pc(), 0x206);
    let mut chip8 = machine(&[0x63, 0x2A, 0x43, 0x2A]);
    run(&mut chip8, 2);
    assert_eq!(chip8.pc(), 0x204);
}

#[test]
fn skip_if_registers_equal() {
    let mut chip8 = machine(&[0x61, 0x09, 0x62, 0x09, 0x51, 0x20]);
    run(&mut chip8, 3);
    assert_eq!(chip8.pc(), 0x208);
    let mut chip8 = machine(&[0x61, 0x09, 0x62, 0x08, 0x51, 0x20]);
    run(&mut chip8, 3);
    assert_eq!(chip8.pc(), 0x206);
}

#[test]
fn skip_if_registers_not_equal() {
    let mut chip8 = machine(&[0x61, 0x09, 0x62, 0x08, 0x91, 0x20]);
    run(&mut chip8, 3);
    assert_eq!(chip8.pc(), 0x208);
    let mut chip8 = machine(&[0x61, 0x09, 0x62, 0x09, 0x91, 0x20]);
    run(&mut chip8, 3);
    assert_eq!(chip8.pc(), 0x206);
}

#[test]
fn add_immediate_wraps_without_flag() {
    let mut chip8 = machine(&[0x61, 0xF0, 0x71, 0x20]);
    run(&mut chip8, 2);
    assert_eq!(chip8.registers()[1], 0x10);
    assert_eq!(chip8.registers()[0xF], 0);
}

#[test]
fn copy_or_and_xor() {
    let mut chip8 = machine(&[0x61, 0xCC, 0x62, 0xAA, 0x83, 0x10, 0x83, 0x21]);
    run(&mut chip8, 4);
    assert_eq!(chip8.registers()[3], 0xEE);
    let mut chip8 = machine(&[0x61, 0xCC, 0x62, 0xAA, 0x81, 0x22]);
    run(&mut chip8, 3);
    assert_eq!(chip8.registers()[1], 0x88);
    let mut chip8 = machine(&[0x61, 0xCC, 0x62, 0xAA, 0x81, 0x23]);
    run(&mut chip8, 3);
    assert_eq!(chip8.registers()[1], 0x66);
    assert_eq!(chip8.registers()[2], 0xAA);
}

#[test]
fn add_with_carry() {
    let mut chip8 = machine(&[0x60, 250, 0x61, 10, 0x80, 0x14]);
    run(&mut chip8, 3);
    assert_eq!(chip8.registers()[0], 4);
    assert_eq!(chip8.registers()[0xF], 1);
}

#[test]
fn add_without_carry() {
    let mut chip8 = machine(&[0x60, 10, 0x61, 10, 0x80, 0x14]);
    run(&mut chip8, 3);
    assert_eq!(chip8.registers()[0], 20);
    assert_eq!(chip8.registers()[0xF], 0);
}

#[test]
fn add_of_255_and_0_has_no_carry() {
    let mut chip8 = machine(&[0x60, 255, 0x61, 0, 0x80, 0x14]);
    run(&mut chip8, 3);
    assert_eq!(chip8.registers()[0], 255);
    assert_eq!(chip8.registers()[0xF], 0);
}

#[test]
fn add_into_flag_register_keeps_the_carry() {
    let mut chip8 = machine(&[0x6F, 200, 0x61, 100, 0x8F, 0x14]);
    run(&mut chip8, 3);
    assert_eq!(chip8.registers()[0xF], 1);
}

#[test]
fn sub_reverse_without_borrow() {
    let mut chip8 = machine(&[0x60, 5, 0x61, 10, 0x80, 0x17]);
    run(&mut chip8, 3);
    assert_eq!(chip8.registers()[0], 5);
    assert_eq!(chip8.registers()[0xF], 1);
}

#[test]
fn sub_with_borrow_wraps() {
    let mut chip8 = machine(&[0x60, 5, 0x61, 10, 0x80, 0x15]);
    run(&mut chip8, 3);
    assert_eq!(chip8.registers()[0], 251);
    assert_eq!(chip8.registers()[0xF], 0);
}

#[test]
fn sub_of_equal_registers_clears_flag() {
    let mut chip8 = machine(&[0x60, 7, 0x61, 7, 0x80, 0x15]);
    run(&mut chip8, 3);
    assert_eq!(chip8.registers()[0], 0);
    assert_eq!(chip8.registers()[0xF], 0);
    let mut chip8 = machine(&[0x60, 7, 0x61, 7, 0x80, 0x17]);
    run(&mut chip8, 3);
    assert_eq!(chip8.registers()[0], 0);
    assert_eq!(chip8.registers()[0xF], 0);
}

#[test]
fn sub_without_borrow_sets_flag() {
    let mut chip8 = machine(&[0x60, 10, 0x61, 3, 0x80, 0x15]);
    run(&mut chip8, 3);
    assert_eq!(chip8.registers()[0], 7);
    assert_eq!(chip8.registers()[0xF], 1);
}

#[test]
fn shift_right_moves_low_bit_to_flag() {
    let mut chip8 = machine(&[0x61, 0x05, 0x81, 0x06]);
    run(&mut chip8, 2);
    assert_eq!(chip8.registers()[1], 0x02);
    assert_eq!(chip8.registers()[0xF], 1);
    let mut chip8 = machine(&[0x61, 0x04, 0x81, 0x06]);
    run(&mut chip8, 2);
    assert_eq!(chip8.registers()[1], 0x02);
    assert_eq!(chip8.registers()[0xF], 0);
}

#[test]
fn shift_left_moves_high_bit_to_flag() {
    let mut chip8 = machine(&[0x61, 0x81, 0x81, 0x0E]);
    run(&mut chip8, 2);
    assert_eq!(chip8.registers()[1], 0x02);
    assert_eq!(chip8.registers()[0xF], 1);
    let mut chip8 = machine(&[0x61, 0x41, 0x81, 0x0E]);
    run(&mut chip8, 2);
    assert_eq!(chip8.registers()[1], 0x82);
    assert_eq!(chip8.registers()[0xF], 0);
}

#[test]
fn set_index_and_add_to_index() {
    let mut chip8 = machine(&[0xAF, 0xFF, 0x61, 0xFF, 0xF1, 0x1E]);
    run(&mut chip8, 3);
    assert_eq!(chip8.index(), 0xFFF + 0xFF);
    assert_eq!(chip8.registers()[0xF], 0);
}

#[test]
fn random_and_masks_the_given_byte() {
    let mut chip8 = machine(&[0xC3, 0x0F]);
    assert!(chip8.can_tick());
    chip8.tick_with(0xA5);
    assert_eq!(chip8.registers()[3], 0x05);
    assert_eq!(chip8.pc(), 0x202);
    let mut chip8 = machine(&[0xC3, 0xF0]);
    chip8.tick_with(0xA5);
    assert_eq!(chip8.registers()[3], 0xA0);
}

#[test]
fn given_byte_is_ignored_by_other_instructions() {
    let mut a = machine(&[0x61, 0x07, 0x71, 0x01]);
    let mut b = machine(&[0x61, 0x07, 0x71, 0x01]);
    a.tick_with(0x00);
    a.tick_with(0x00);
    b.tick_with(0xFF);
    b.tick_with(0x5A);
    assert_eq!(a.registers(), b.registers());
    assert_eq!(a.pc(), b.pc());
    assert_eq!(a.memory(), b.memory());
}

#[test]
fn random_and_draws_from_the_generator() {
    // 0x200: random into register 3, masked by 0xFF; 0x202: jump 0x200
    let mut chip8 = machine(&[0xC3, 0xFF, 0x12, 0x00]);
    let mut seen = Vec::new();
    for _ in 0..64 {
        assert!(chip8.can_tick());
        chip8.tick();
        let value = chip8.registers()[3];
        if !seen.contains(&value) {
            seen.push(value);
        }
        chip8.tick();
        assert_eq!(chip8.pc(), 0x200);
    }
    assert!(seen.len() > 1);
}

#[test]
fn random_and_respects_the_mask() {
    let mut chip8 = machine(&[0xC3, 0x0F, 0x12, 0x00]);
    for _ in 0..64 {
        chip8.tick();
        assert_eq!(chip8.registers()[3] & 0xF0, 0);
        chip8.tick();
    }
    let mut chip8 = machine(&[0x63, 0x77, 0xC3, 0x00]);
    chip8.tick();
    chip8.tick();
    assert_eq!(chip8.registers()[3], 0);
}

#[test]
fn tick_without_random_is_deterministic() {
    let mut a = machine(&[0x61, 0x07, 0x81, 0x14, 0xF1, 0x15]);
    let mut b = machine(&[0x61, 0x07, 0x81, 0x14, 0xF1, 0x15]);
    for _ in 0..3 {
        a.tick();
        assert!(b.try_tick());
    }
    assert_eq!(a.registers(), b.registers());
    assert_eq!(a.delay_timer(), b.delay_timer());
    assert_eq!(a.pc(), 0x206);
    assert_eq!(b.pc(), 0x206);
}

#[test]
fn load_glyph_address_is_five_times_the_digit() {
    let mut chip8 = machine(&[0x61, 0x0A, 0xF1, 0x29]);
    run(&mut chip8, 2);
    assert_eq!(chip8.index(), 50);
    let mut chip8 = machine(&[0xA3, 0x00, 0xF1, 0x29]);
    run(&mut chip8, 2);
    assert_eq!(chip8.index(), 0);
    let mut chip8 = machine(&[0x61, 0x0F, 0xF1, 0x29]);
    run(&mut chip8, 2);
    assert_eq!(chip8.index(), 75);
}

#[test]
fn store_bcd_writes_three_digits() {
    let mut chip8 = machine(&[0x61, 254, 0xA3, 0x00, 0xF1, 0x33]);
    run(&mut chip8, 3);
    assert_eq!(&chip8.memory()[0x300..0x303], &[2, 5, 4]);
    assert_eq!(chip8.index(), 0x300);
    let mut chip8 = machine(&[0x61, 7, 0xA3, 0x00, 0xF1, 0x33]);
    run(&mut chip8, 3);
    assert_eq!(&chip8.memory()[0x300..0x303], &[0, 0, 7]);
}

#[test]
fn store_registers_is_inclusive() {
    let mut chip8 = machine(&[0x60, 0x11, 0x61, 0x22, 0x62, 0x33, 0x63, 0x44, 0xA3, 0x00, 0xF2, 0x55]);
    run(&mut chip8, 6);
    assert_eq!(&chip8.memory()[0x300..0x304], &[0x11, 0x22, 0x33, 0x00]);
    assert_eq!(chip8.index(), 0x300);
}

#[test]
fn store_register_zero_only() {
    let mut chip8 = machine(&[0x60, 0x11, 0x61, 0x22, 0xA3, 0x00, 0xF0, 0x55]);
    run(&mut chip8, 4);
    assert_eq!(&chip8.memory()[0x300..0x302], &[0x11, 0x00]);
}

#[test]
fn load_registers_is_inclusive() {
    // sprite data doubles as the bytes to load
    let mut chip8 = machine(&[0xA2, 0x04, 0xF2, 0x65, 0xDE, 0xAD, 0xBE, 0xEF]);
    run(&mut chip8, 2);
    let v = chip8.registers();
    assert_eq!(&v[0..4], &[0xDE, 0xAD, 0xBE, 0x00]);
    assert_eq!(chip8.index(), 0x204);
}

#[test]
fn load_all_registers() {
    let mut rom = vec![0xA2, 0x04, 0xFF, 0x65];
    rom.extend((1..=16).map(|k| k as u8));
    let mut chip8 = machine(&rom);
    run(&mut chip8, 2);
    let expected: Vec<u8> = (1..=16).collect();
    assert_eq!(&chip8.registers()[..], &expected[..]);
}

#[test]
fn timers_are_set_and_read() {
    let mut chip8 = machine(&[0x61, 0x09, 0xF1, 0x15, 0xF2, 0x07, 0xF1, 0x18]);
    run(&mut chip8, 2);
    assert_eq!(chip8.delay_timer(), 8);
    run(&mut chip8, 1);
    assert_eq!(chip8.registers()[2], 8);
    assert_eq!(chip8.delay_timer(), 7);
    run(&mut chip8, 1);
    assert_eq!(chip8.sound_timer(), 8);
    assert!(chip8.should_beep());
}

#[test]
fn delay_timer_runs_down_to_zero_and_stays() {
    // register 0 := 6; delay := register 0, which the same tick counts
    // down to 5; then a loop that leaves the timer alone
    let mut chip8 = machine(&[0x60, 0x06, 0xF0, 0x15, 0x12, 0x04]);
    run(&mut chip8, 2);
    assert_eq!(chip8.delay_timer(), 5);
    for left in [4, 3, 2, 1, 0] {
        run(&mut chip8, 1);
        assert_eq!(chip8.delay_timer(), left);
    }
    for _ in 0..300 {
        run(&mut chip8, 1);
        assert_eq!(chip8.delay_timer(), 0);
    }
}

#[test]
fn sound_timer_drives_the_tone() {
    let mut chip8 = machine(&[0x60, 0x03, 0xF0, 0x18, 0x12, 0x04]);
    assert!(!chip8.should_beep());
    run(&mut chip8, 2);
    assert_eq!(chip8.sound_timer(), 2);
    assert!(chip8.should_beep());
    run(&mut chip8, 1);
    assert!(chip8.should_beep());
    run(&mut chip8, 1);
    assert_eq!(chip8.sound_timer(), 0);
    assert!(!chip8.should_beep());
    run(&mut chip8, 10);
    assert!(!chip8.should_beep());
}

#[test]
fn setting_a_timer_to_one_leaves_zero_after_the_tick() {
    let mut chip8 = machine(&[0x60, 0x01, 0xF0, 0x15, 0xF0, 0x18]);
    run(&mut chip8, 3);
    assert_eq!(chip8.delay_timer(), 0);
    assert_eq!(chip8.sound_timer(), 0);
}

#[test]
fn skip_if_key_down() {
    let mut chip8 = machine(&[0x61, 0x0B, 0xE1, 0x9E]);
    chip8.update_keyboard(keys(&[0xB]));
    run(&mut chip8, 2);
    assert_eq!(chip8.pc(), 0x206);
    let mut chip8 = machine(&[0x61, 0x0B, 0xE1, 0x9E]);
    chip8.update_keyboard(keys(&[0xA, 0xC]));
    run(&mut chip8, 2);
    assert_eq!(chip8.pc(), 0x204);
}

#[test]
fn skip_if_key_up() {
    let mut chip8 = machine(&[0x61, 0x0B, 0xE1, 0xA1]);
    chip8.update_keyboard(keys(&[0xA, 0xC]));
    run(&mut chip8, 2);
    assert_eq!(chip8.pc(), 0x206);
    let mut chip8 = machine(&[0x61, 0x0B, 0xE1, 0xA1]);
    chip8.update_keyboard(keys(&[0xB]));
    run(&mut chip8, 2);
    assert_eq!(chip8.pc(), 0x204);
}

#[test]
fn wait_for_key_stalls_then_takes_lowest_key() {
    let mut chip8 = machine(&[0xF5, 0x0A, 0x61, 0x01]);
    run(&mut chip8, 1);
    assert_eq!(chip8.pc(), 0x200);
    run(&mut chip8, 1);
    assert_eq!(chip8.pc(), 0x200);
    assert_eq!(chip8.registers(), [0u8; NKEYS]);
    chip8.update_keyboard(keys(&[0xC, 0x7, 0xE]));
    run(&mut chip8, 1);
    assert_eq!(chip8.pc(), 0x202);
    assert_eq!(chip8.registers()[5], 7);
}

#[test]
fn wait_for_key_takes_key_zero() {
    let mut chip8 = machine(&[0x65, 0x55, 0xF5, 0x0A]);
    chip8.update_keyboard(keys(&[0x0, 0xF]));
    run(&mut chip8, 2);
    assert_eq!(chip8.registers()[5], 0);
    assert_eq!(chip8.pc(), 0x204);
}

#[test]
fn wait_for_key_lets_timers_run() {
    let mut chip8 = machine(&[0x60, 0x05, 0xF0, 0x15, 0xF1, 0x0A]);
    run(&mut chip8, 2);
    assert_eq!(chip8.delay_timer(), 4);
    run(&mut chip8, 2);
    assert_eq!(chip8.pc(), 0x204);
    assert_eq!(chip8.delay_timer(), 2);
}

#[test]
fn update_keyboard_replaces_the_snapshot() {
    let mut chip8 = machine(&[0x61, 0x03, 0xE1, 0x9E, 0xE1, 0x9E]);
    chip8.update_keyboard(keys(&[3]));
    chip8.update_keyboard(keys(&[]));
    run(&mut chip8, 2);
    assert_eq!(chip8.pc(), 0x204);
}

#[test]
fn draw_glyph_on_blank_display() {
    // glyph of 0 at column 2, row 1
    let mut chip8 = machine(&[0x60, 0x02, 0x61, 0x01, 0xA0, 0x00, 0xD0, 0x15]);
    run(&mut chip8, 4);
    let expected = vec![
        (1, 2), (1, 3), (1, 4), (1, 5),
        (2, 2), (2, 5),
        (3, 2), (3, 5),
        (4, 2), (4, 5),
        (5, 2), (5, 3), (5, 4), (5, 5),
    ];
    assert_eq!(lit(&chip8), expected);
    assert_eq!(chip8.registers()[0xF], 0);
    assert_eq!(chip8.pc(), 0x208);
}

#[test]
fn draw_twice_restores_the_display_and_sets_flag() {
    let mut chip8 = machine(&[0x60, 0x02, 0x61, 0x01, 0xA0, 0x00, 0xD0, 0x15, 0xD0, 0x15]);
    run(&mut chip8, 3);
    let before = chip8.get_vram();
    run(&mut chip8, 1);
    assert_ne!(chip8.get_vram(), before);
    assert_eq!(chip8.registers()[0xF], 0);
    run(&mut chip8, 1);
    assert_eq!(chip8.get_vram(), before);
    assert_eq!(chip8.registers()[0xF], 1);
}

#[test]
fn draw_twice_on_a_lit_display_restores_it() {
    // glyph of 8, then glyph of 0 over it twice
    let mut chip8 = machine(&[
        0x68, 0x08, 0xF8, 0x29, 0xD0, 0x05, 0xA0, 0x00, 0xD0, 0x05, 0xD0, 0x05,
    ]);
    run(&mut chip8, 3);
    let before = chip8.get_vram();
    run(&mut chip8, 2);
    // the glyph of 0 lies within that of 8: only pixels go off
    assert_eq!(chip8.registers()[0xF], 1);
    assert_eq!(lit(&chip8), vec![(2, 1), (2, 2)]);
    run(&mut chip8, 1);
    assert_eq!(chip8.get_vram(), before);
    assert_eq!(chip8.registers()[0xF], 0);
}

#[test]
fn draw_blank_sprite_twice_leaves_flag_clear() {
    let mut chip8 = machine(&[0xA3, 0x00, 0xD0, 0x05, 0xD0, 0x05]);
    run(&mut chip8, 3);
    assert!(lit(&chip8).is_empty());
    assert_eq!(chip8.registers()[0xF], 0);
}

#[test]
fn draw_overlapping_sprites_reports_collision() {
    // one row 0xFF at column 0, then one row 0xFF at column 4
    let mut chip8 = machine(&[0xA2, 0x0A, 0xD0, 0x01, 0x61, 0x04, 0xD1, 0x01, 0x00, 0x00, 0xFF]);
    run(&mut chip8, 4);
    assert_eq!(chip8.registers()[0xF], 1);
    let expected: Vec<(usize, usize)> = vec![(0, 0), (0, 1), (0, 2), (0, 3), (0, 8), (0, 9), (0, 10), (0, 11)];
    assert_eq!(lit(&chip8), expected);
}

#[test]
fn draw_is_clipped_at_the_right_edge() {
    let mut chip8 = machine(&[0x60, 60, 0x61, 0x00, 0xA2, 0x08, 0xD0, 0x12, 0xFF, 0xFF]);
    run(&mut chip8, 4);
    let expected = vec![
        (0, 60), (0, 61), (0, 62), (0, 63),
        (1, 60), (1, 61), (1, 62), (1, 63),
    ];
    assert_eq!(lit(&chip8), expected);
}

#[test]
fn draw_is_clipped_at_the_bottom_edge() {
    let mut chip8 = machine(&[0x60, 0x00, 0x61, 30, 0xA2, 0x08, 0xD0, 0x14, 0x80, 0x80, 0x80, 0x80]);
    run(&mut chip8, 4);
    assert_eq!(lit(&chip8), vec![(30, 0), (31, 0)]);
}

#[test]
fn draw_position_wraps_before_drawing() {
    let mut chip8 = machine(&[0x60, 64 + 3, 0x61, 32 + 5, 0xA2, 0x08, 0xD0, 0x11, 0x80]);
    run(&mut chip8, 4);
    assert_eq!(lit(&chip8), vec![(5, 3)]);
}

#[test]
fn draw_with_no_rows_clears_the_flag() {
    let mut chip8 = machine(&[0x6F, 0x01, 0xA0, 0x00, 0xD0, 0x10]);
    run(&mut chip8, 3);
    assert!(lit(&chip8).is_empty());
    assert_eq!(chip8.registers()[0xF], 0);
}

#[test]
fn draw_reads_bits_from_the_most_significant() {
    let mut chip8 = machine(&[0xA2, 0x04, 0xD0, 0x01, 0xA5]);
    run(&mut chip8, 2);
    assert_eq!(lit(&chip8), vec![(0, 0), (0, 2), (0, 5), (0, 7)]);
}

#[test]
fn clear_display_switches_every_pixel_off() {
    let mut chip8 = machine(&[0xA0, 0x00, 0xD0, 0x05, 0x00, 0xE0]);
    run(&mut chip8, 2);
    assert!(!lit(&chip8).is_empty());
    run(&mut chip8, 1);
    let vram = chip8.get_vram();
    assert_eq!(vram.len(), 32);
    assert!(vram.iter().all(|row| row.len() == 64 && row.iter().all(|&pixel| !pixel)));
    assert_eq!(chip8.pc(), 0x206);
}

#[test]
fn cannot_tick_beyond_memory() {
    let mut chip8 = machine(&[0x1F, 0xFF]);
    run(&mut chip8, 1);
    assert_eq!(chip8.pc(), 0xFFF);
    assert!(!chip8.can_tick());
    assert!(!chip8.try_tick());
    assert_eq!(chip8.pc(), 0xFFF);
}

#[test]
fn can_tick_at_the_last_instruction_of_memory() {
    let mut chip8 = machine(&[0x1F, 0xFE]);
    run(&mut chip8, 1);
    assert!(chip8.can_tick());
    assert!(chip8.try_tick());
    assert_eq!(chip8.pc(), 0x1000);
    assert!(!chip8.can_tick());
}

#[test]
fn cannot_tick_on_key_beyond_the_keypad() {
    let mut chip8 = machine(&[0x61, 0x10, 0xE1, 0x9E]);
    run(&mut chip8, 1);
    assert!(!chip8.can_tick());
    let mut chip8 = machine(&[0x61, 0x10, 0xE1, 0xA1]);
    run(&mut chip8, 1);
    assert!(!chip8.can_tick());
    let mut chip8 = machine(&[0x61, 0x0F, 0xE1, 0xA1]);
    run(&mut chip8, 1);
    assert!(chip8.can_tick());
}

#[test]
fn cannot_tick_on_glyph_beyond_the_font() {
    let mut chip8 = machine(&[0x61, 0x10, 0xF1, 0x29]);
    run(&mut chip8, 1);
    assert!(!chip8.can_tick());
}

#[test]
fn cannot_tick_on_store_beyond_memory() {
    let mut chip8 = machine(&[0xAF, 0xFE, 0xF0, 0x33]);
    run(&mut chip8, 1);
    assert!(!chip8.can_tick());
    let mut chip8 = machine(&[0xAF, 0xFD, 0xF0, 0x33]);
    run(&mut chip8, 2);
    assert_eq!(&chip8.memory()[0xFFD..], &[0, 0, 0]);
    let mut chip8 = machine(&[0xAF, 0xFF, 0xF1, 0x55]);
    run(&mut chip8, 1);
    assert!(!chip8.can_tick());
    let mut chip8 = machine(&[0xAF, 0xFF, 0xF1, 0x65]);
    run(&mut chip8, 1);
    assert!(!chip8.can_tick());
    let mut chip8 = machine(&[0x60, 0x99, 0xAF, 0xFF, 0xF0, 0x55]);
    run(&mut chip8, 3);
    assert_eq!(chip8.memory()[0xFFF], 0x99);
}

#[test]
fn cannot_tick_on_sprite_beyond_memory() {
    let mut chip8 = machine(&[0xAF, 0xFE, 0xD0, 0x03]);
    run(&mut chip8, 1);
    assert!(!chip8.can_tick());
    // the rows below the display are not read
    let mut chip8 = machine(&[0x61, 30, 0xAF, 0xFE, 0xD0, 0x13]);
    run(&mut chip8, 2);
    assert!(chip8.can_tick());
    run(&mut chip8, 1);
    assert!(lit(&chip8).is_empty());
}

#[test]
fn cannot_tick_on_index_overflow() {
    // the index climbs by 255 per round until it would leave sixteen bits
    let mut chip8 = machine(&[0x60, 0xFF, 0xF0, 0x1E, 0x12, 0x02]);
    run(&mut chip8, 1);
    let mut rounds = 0usize;
    while chip8.can_tick() {
        chip8.tick_with(0);
        assert!(chip8.can_tick());
        chip8.tick_with(0);
        rounds += 1;
        assert!(rounds <= 300);
    }
    assert_eq!(rounds, 257);
    assert_eq!(chip8.index(), 65535);
    assert_eq!(chip8.pc(), 0x202);
}

#[test]
fn try_tick_leaves_a_stuck_machine_alone() {
    let mut chip8 = machine(&[0x61, 0x10, 0xF1, 0x29]);
    assert!(chip8.try_tick());
    let before = (chip8.pc(), chip8.index(), chip8.registers(), chip8.memory(), chip8.delay_timer());
    assert!(!chip8.try_tick());
    assert_eq!(
        (chip8.pc(), chip8.index(), chip8.registers(), chip8.memory(), chip8.delay_timer()),
        before
    );
}

#[test]
fn sub_into_the_flag_register_uses_the_new_flag() {
    // the flag is written first, then register F is the flag minus register 1
    let mut chip8 = machine(&[0x6F, 10, 0x61, 3, 0x8F, 0x15]);
    run(&mut chip8, 3);
    assert_eq!(chip8.registers()[0xF], 254);
    let mut chip8 = machine(&[0x6F, 10, 0x61, 3, 0x8F, 0x17]);
    run(&mut chip8, 3);
    assert_eq!(chip8.registers()[0xF], 3);
}

#[test]
fn shift_of_the_flag_register_leaves_zero() {
    let mut chip8 = machine(&[0x6F, 0xFF, 0x8F, 0x06]);
    run(&mut chip8, 2);
    assert_eq!(chip8.registers()[0xF], 0);
    let mut chip8 = machine(&[0x6F, 0xFF, 0x8F, 0x0E]);
    run(&mut chip8, 2);
    assert_eq!(chip8.registers()[0xF], 2);
}

#[test]
fn draw_at_position_held_in_the_flag_register() {
    // the position is read before the flag is cleared
    let mut chip8 = machine(&[0x6F, 0x05, 0xA2, 0x06, 0xDF, 0xF1, 0x80]);
    run(&mut chip8, 3);
    assert_eq!(lit(&chip8), vec![(5, 5)]);
    assert_eq!(chip8.registers()[0xF], 0);
}

#[test]
fn only_stores_write_memory() {
    let rom = [
        0x61, 0x07, 0x71, 0x01, 0x82, 0x10, 0x82, 0x14, 0xA0, 0x05, 0xD1, 0x25, 0x00, 0xE0, 0xF1,
        0x15, 0xF1, 0x18, 0xF1, 0x1E, 0xF1, 0x29, 0xF3, 0x65, 0x22, 0x1C, 0x00, 0x00, 0x00, 0xEE,
    ];
    let mut chip8 = machine(&rom);
    let before = chip8.memory();
    run(&mut chip8, 14);
    assert_eq!(chip8.memory(), before);
    assert_eq!(chip8.pc(), 0x21A);
    assert_eq!(chip8.stack(), Vec::<usize>::new());
}

#[test]
fn store_can_overwrite_the_font() {
    let mut chip8 = machine(&[0x60, 0xAA, 0xA0, 0x00, 0xF0, 0x55]);
    run(&mut chip8, 3);
    assert_eq!(chip8.memory()[0], 0xAA);
    assert_eq!(chip8.memory()[1], 0x90);
}

#[test]
fn tick_at_every_word_of_an_open_family_advances_by_two() {
    for low in 0u16..=0xFF {
        for x in 0u8..16 {
            let mut chip8 = machine(&[0x60 | x, low as u8]);
            run(&mut chip8, 1);
            assert_eq!(chip8.pc(), 0x202);
            assert_eq!(chip8.registers()[x as usize], low as u8);
        }
    }
}
