use chip8::machine::Chip8;
use chip8::model::{Chip8Error, FONT};

fn machine_with(program: &[u8]) -> Chip8 {
    let mut m = Chip8::new();
    m.load_rom(program).unwrap();
    m
}

fn run(m: &mut Chip8, cycles: usize) {
    for _ in 0..cycles {
        m.cycle_with_random(0).unwrap();
    }
}

#[test]
fn new_machine_is_initial() {
    let m = Chip8::new();
    assert_eq!(m.program_counter(), 0x200);
    assert_eq!(m.index_register(), 0);
    assert_eq!(m.stack_pointer(), 0);
    assert_eq!(m.delay_timer(), 0);
    assert_eq!(m.sound_timer(), 0);
    for x in 0..16 {
        assert_eq!(m.register(x), 0);
        assert!(!m.key(x));
    }
    for k in 0..80 {
        assert_eq!(m.memory(0x50 + k), FONT[k]);
    }
    assert_eq!(m.memory(0x4F), 0);
    assert_eq!(m.memory(0xA0), 0);
    assert!(m.get_display().iter().all(|&p| !p));
    assert!(!m.get_sound());
}

#[test]
fn load_then_add_program() {
    let mut m = machine_with(&[0x60, 0x0A, 0x70, 0x05]);
    run(&mut m, 2);
    assert_eq!(m.register(0), 15);
    assert_eq!(m.program_counter(), 0x204);
}

#[test]
fn load_then_add_zero_keeps_value() {
    for kk in [0u8, 1, 0x7F, 0xFF] {
        let mut m = machine_with(&[0x63, kk, 0x73, 0x00]);
        run(&mut m, 2);
        assert_eq!(m.register(3), kk);
    }
}

#[test]
fn tick_at_zero_stays_zero() {
    let mut m = Chip8::new();
    m.cycle_timer();
    assert_eq!(m.delay_timer(), 0);
    assert_eq!(m.sound_timer(), 0);
}

#[test]
fn timers_count_down() {
    // V0 := 2; DT := V0; ST := V0
    let mut m = machine_with(&[0x60, 0x02, 0xF0, 0x15, 0xF0, 0x18]);
    run(&mut m, 3);
    assert_eq!(m.delay_timer(), 2);
    assert!(m.get_sound());
    m.cycle_timer();
    assert_eq!(m.delay_timer(), 1);
    assert_eq!(m.sound_timer(), 1);
    m.cycle_timer();
    m.cycle_timer();
    assert_eq!(m.delay_timer(), 0);
    assert_eq!(m.sound_timer(), 0);
    assert!(!m.get_sound());
}

#[test]
fn wait_for_key_stalls_until_key_zero() {
    let mut m = machine_with(&[0xF0, 0x0A]);
    m.keypress(5, true);
    m.cycle().unwrap();
    // key 5 is the lowest held key, so it is stored
    assert_eq!(m.register(0), 5);
    assert_eq!(m.program_counter(), 0x202);

    let mut m = machine_with(&[0xF0, 0x0A]);
    m.cycle().unwrap();
    assert_eq!(m.program_counter(), 0x200);
    m.cycle().unwrap();
    assert_eq!(m.program_counter(), 0x200);
    m.keypress(0, true);
    m.cycle().unwrap();
    assert_eq!(m.register(0), 0);
    assert_eq!(m.program_counter(), 0x202);
}

#[test]
fn wait_for_key_takes_lowest() {
    let mut m = machine_with(&[0xF4, 0x0A]);
    m.keypress(9, true);
    m.keypress(3, true);
    m.cycle().unwrap();
    assert_eq!(m.register(4), 3);
}

#[test]
fn add_with_carry_all_cases() {
    for (a, b) in [(0u8, 0u8), (200, 55), (200, 56), (255, 255), (1, 255), (100, 100)] {
        let mut m = machine_with(&[0x61, a, 0x62, b, 0x81, 0x24]);
        run(&mut m, 3);
        let sum = a as u16 + b as u16;
        assert_eq!(m.register(1), (sum % 256) as u8);
        assert_eq!(m.register(15), if sum >= 256 { 1 } else { 0 });
    }
}

#[test]
fn sub_not_borrow_all_cases() {
    for (a, b) in [(0u8, 0u8), (10, 3), (3, 10), (255, 255), (0, 1), (128, 127)] {
        let mut m = machine_with(&[0x61, a, 0x62, b, 0x81, 0x25]);
        run(&mut m, 3);
        assert_eq!(m.register(1), a.wrapping_sub(b));
        assert_eq!(m.register(15), if a >= b { 1 } else { 0 });
    }
}

#[test]
fn reverse_sub_and_shifts() {
    // V1 := 3; V2 := 10; V1 := V2 - V1
    let mut m = machine_with(&[0x61, 0x03, 0x62, 0x0A, 0x81, 0x27]);
    run(&mut m, 3);
    assert_eq!(m.register(1), 7);
    assert_eq!(m.register(15), 1);
    // V1 := 0x81; V1 >>= 1
    let mut m = machine_with(&[0x61, 0x81, 0x81, 0x06]);
    run(&mut m, 2);
    assert_eq!(m.register(1), 0x40);
    assert_eq!(m.register(15), 1);
    // V1 := 0x81; V1 <<= 1
    let mut m = machine_with(&[0x61, 0x81, 0x81, 0x0E]);
    run(&mut m, 2);
    assert_eq!(m.register(1), 0x02);
    assert_eq!(m.register(15), 1);
}

#[test]
fn flag_wins_when_target_is_vf() {
    // VF := 200; V1 := 100; VF := VF + V1 -> flag 1 overwrites the sum
    let mut m = machine_with(&[0x6F, 200, 0x61, 100, 0x8F, 0x14]);
    run(&mut m, 3);
    assert_eq!(m.register(15), 1);
    // VF := 0x02; VF >>= 1 -> flag 0 overwrites the shifted value 1
    let mut m = machine_with(&[0x6F, 0x02, 0x8F, 0x06]);
    run(&mut m, 2);
    assert_eq!(m.register(15), 0);
}

#[test]
fn logic_ops() {
    let mut m = machine_with(&[0x61, 0xF0, 0x62, 0x3C, 0x81, 0x21]);
    run(&mut m, 3);
    assert_eq!(m.register(1), 0xFC);
    let mut m = machine_with(&[0x61, 0xF0, 0x62, 0x3C, 0x81, 0x22]);
    run(&mut m, 3);
    assert_eq!(m.register(1), 0x30);
    let mut m = machine_with(&[0x61, 0xF0, 0x62, 0x3C, 0x81, 0x23]);
    run(&mut m, 3);
    assert_eq!(m.register(1), 0xCC);
    let mut m = machine_with(&[0x62, 0x3C, 0x81, 0x20]);
    run(&mut m, 2);
    assert_eq!(m.register(1), 0x3C);
}

#[test]
fn add_immediate_wraps() {
    let mut m = machine_with(&[0x61, 0xFF, 0x71, 0x02]);
    run(&mut m, 2);
    assert_eq!(m.register(1), 1);
    assert_eq!(m.register(15), 0);
}

#[test]
fn skips() {
    // V1 := 5; skip if V1 == 5
    let mut m = machine_with(&[0x61, 0x05, 0x31, 0x05]);
    run(&mut m, 2);
    assert_eq!(m.program_counter(), 0x206);
    let mut m = machine_with(&[0x61, 0x05, 0x31, 0x06]);
    run(&mut m, 2);
    assert_eq!(m.program_counter(), 0x204);
    let mut m = machine_with(&[0x61, 0x05, 0x41, 0x06]);
    run(&mut m, 2);
    assert_eq!(m.program_counter(), 0x206);
    // V1 == V2 (both 0)
    let mut m = machine_with(&[0x51, 0x20]);
    run(&mut m, 1);
    assert_eq!(m.program_counter(), 0x204);
    let mut m = machine_with(&[0x91, 0x20]);
    run(&mut m, 1);
    assert_eq!(m.program_counter(), 0x202);
}

#[test]
fn key_skips() {
    let mut m = machine_with(&[0x61, 0x07, 0xE1, 0x9E]);
    m.keypress(7, true);
    run(&mut m, 2);
    assert_eq!(m.program_counter(), 0x206);
    let mut m = machine_with(&[0x61, 0x07, 0xE1, 0xA1]);
    m.keypress(7, true);
    run(&mut m, 2);
    assert_eq!(m.program_counter(), 0x204);
    let mut m = machine_with(&[0x61, 0x07, 0xE1, 0xA1]);
    run(&mut m, 2);
    assert_eq!(m.program_counter(), 0x206);
    m.keypress(7, true);
    assert!(m.key(7));
    m.keypress(7, false);
    assert!(!m.key(7));
}

#[test]
fn key_skip_with_bad_key_is_out_of_bounds() {
    let mut m = machine_with(&[0x61, 0x10, 0xE1, 0x9E]);
    run(&mut m, 1);
    assert_eq!(m.cycle(), Err(Chip8Error::OutOfBounds));
    assert_eq!(m.program_counter(), 0x202);
}

#[test]
fn jumps_calls_and_returns() {
    let mut m = machine_with(&[0x13, 0x00]);
    run(&mut m, 1);
    assert_eq!(m.program_counter(), 0x300);
    // call 0x300, which returns
    let mut program = vec![0u8; 0x102];
    program[0] = 0x23;
    program[1] = 0x00;
    program[0x100] = 0x00;
    program[0x101] = 0xEE;
    let mut m = machine_with(&program);
    run(&mut m, 1);
    assert_eq!(m.program_counter(), 0x300);
    assert_eq!(m.stack_pointer(), 1);
    assert_eq!(m.stack_entry(0), 0x202);
    run(&mut m, 1);
    assert_eq!(m.program_counter(), 0x202);
    assert_eq!(m.stack_pointer(), 0);
    // V0 := 4; jump to 0x300 + V0
    let mut m = machine_with(&[0x60, 0x04, 0xB3, 0x00]);
    run(&mut m, 2);
    assert_eq!(m.program_counter(), 0x304);
}

#[test]
fn return_on_empty_stack_is_out_of_bounds() {
    let mut m = machine_with(&[0x00, 0xEE]);
    assert_eq!(m.cycle(), Err(Chip8Error::OutOfBounds));
    assert_eq!(m.program_counter(), 0x200);
}

#[test]
fn call_stack_overflow_is_out_of_bounds() {
    // call 0x200 forever
    let mut m = machine_with(&[0x22, 0x00]);
    run(&mut m, 16);
    assert_eq!(m.stack_pointer(), 16);
    assert_eq!(m.cycle(), Err(Chip8Error::OutOfBounds));
    assert_eq!(m.stack_pointer(), 16);
}

#[test]
fn unknown_opcode_reports_word_and_address() {
    let mut m = machine_with(&[0x60, 0x01, 0x51, 0x23]);
    run(&mut m, 1);
    assert_eq!(
        m.cycle(),
        Err(Chip8Error::UnknownOpcode { opcode: 0x5123, pc: 0x202 })
    );
    assert_eq!(m.program_counter(), 0x202);
    let mut m = machine_with(&[0xFF, 0xFF]);
    assert_eq!(
        m.cycle(),
        Err(Chip8Error::UnknownOpcode { opcode: 0xFFFF, pc: 0x200 })
    );
}

#[test]
fn zero_word_halts() {
    let mut m = Chip8::new();
    run(&mut m, 3);
    assert_eq!(m.program_counter(), 0x200);
}

#[test]
fn fetch_past_memory_is_out_of_bounds() {
    let mut m = machine_with(&[0x1F, 0xFF]);
    run(&mut m, 1);
    assert_eq!(m.program_counter(), 0xFFF);
    assert_eq!(m.cycle(), Err(Chip8Error::OutOfBounds));
}

#[test]
fn load_rom_too_large_fails_unchanged() {
    let mut m = Chip8::new();
    assert_eq!(m.load_rom(&vec![1u8; 0xE01]), Err(Chip8Error::OutOfBounds));
    assert_eq!(m.memory(0x200), 0);
    assert_eq!(m.load_rom(&vec![1u8; 0xE00]), Ok(()));
    assert_eq!(m.memory(0x200), 1);
    assert_eq!(m.memory(0xFFF), 1);
}

#[test]
fn random_byte_is_masked() {
    let mut m = machine_with(&[0xC1, 0xAB]);
    m.cycle_with_random(0xF0).unwrap();
    assert_eq!(m.register(1), 0xA0);
    for _ in 0..32 {
        let mut m = machine_with(&[0xC1, 0x0F]);
        m.cycle().unwrap();
        assert!(m.register(1) <= 0x0F);
        assert_eq!(m.program_counter(), 0x202);
    }
    let mut m = machine_with(&[0xC1, 0x00]);
    m.cycle().unwrap();
    assert_eq!(m.register(1), 0);
}

#[test]
fn index_ops_and_bcd() {
    // I := 0x300; V1 := 0x10; I += V1
    let mut m = machine_with(&[0xA3, 0x00, 0x61, 0x10, 0xF1, 0x1E]);
    run(&mut m, 3);
    assert_eq!(m.index_register(), 0x310);
    // V1 := 0xB; I := font glyph for V1
    let mut m = machine_with(&[0x61, 0x0B, 0xF1, 0x29]);
    run(&mut m, 2);
    assert_eq!(m.index_register(), 55);
    // I := 0x300; V1 := 254; BCD of V1
    let mut m = machine_with(&[0xA3, 0x00, 0x61, 254, 0xF1, 0x33]);
    run(&mut m, 3);
    assert_eq!(m.memory(0x300), 2);
    assert_eq!(m.memory(0x301), 5);
    assert_eq!(m.memory(0x302), 4);
}

#[test]
fn bcd_at_end_of_memory_is_out_of_bounds() {
    let mut m = machine_with(&[0xAF, 0xFE, 0xF1, 0x33]);
    run(&mut m, 1);
    assert_eq!(m.cycle(), Err(Chip8Error::OutOfBounds));
    assert_eq!(m.memory(0xFFE), 0);
}

#[test]
fn store_and_load_registers() {
    // V0 := 1; V1 := 2; V2 := 3; I := 0x300; store V0..V2; V0 := 0; V1 := 0; load V0..V1
    let mut m = machine_with(&[
        0x60, 0x01, 0x61, 0x02, 0x62, 0x03, 0xA3, 0x00, 0xF2, 0x55, 0x60, 0x00, 0x61, 0x00, 0x62,
        0x09, 0xF1, 0x65,
    ]);
    run(&mut m, 9);
    assert_eq!(m.memory(0x300), 1);
    assert_eq!(m.memory(0x301), 2);
    assert_eq!(m.memory(0x302), 3);
    assert_eq!(m.memory(0x303), 0);
    assert_eq!(m.register(0), 1);
    assert_eq!(m.register(1), 2);
    assert_eq!(m.register(2), 9);
}

#[test]
fn delay_timer_read_back() {
    let mut m = machine_with(&[0x60, 0x09, 0xF0, 0x15, 0xF3, 0x07]);
    run(&mut m, 3);
    assert_eq!(m.register(3), 9);
}

#[test]
fn draw_twice_restores_and_collides() {
    // I := font glyph 0 (0x50); V1 := 62; V2 := 30; draw 5 rows twice
    let mut m = machine_with(&[0xA0, 0x50, 0x61, 62, 0x62, 30, 0xD1, 0x25, 0xD1, 0x25]);
    run(&mut m, 4);
    assert_eq!(m.register(15), 0);
    let lit = m.get_display().iter().filter(|&&p| p).count();
    // glyph 0 has 4 + 2 + 2 + 2 + 4 lit pixels
    assert_eq!(lit, 14);
    // top row of the glyph, 0xF0, wraps from column 62 to column 1 on row 30
    assert!(m.get_display()[62 + 30 * 64]);
    assert!(m.get_display()[63 + 30 * 64]);
    assert!(m.get_display()[0 + 30 * 64]);
    assert!(m.get_display()[1 + 30 * 64]);
    assert!(!m.get_display()[2 + 30 * 64]);
    // the third row wraps to row 0
    assert!(m.get_display()[62]);
    run(&mut m, 1);
    assert_eq!(m.register(15), 1);
    assert!(m.get_display().iter().all(|&p| !p));
}

#[test]
fn clear_screen() {
    let mut m = machine_with(&[0xA0, 0x50, 0xD0, 0x05, 0x00, 0xE0]);
    run(&mut m, 2);
    assert!(m.get_display().iter().any(|&p| p));
    run(&mut m, 1);
    assert!(m.get_display().iter().all(|&p| !p));
    assert_eq!(m.program_counter(), 0x206);
}

#[test]
fn draw_past_memory_is_out_of_bounds() {
    let mut m = machine_with(&[0xAF, 0xFE, 0xD0, 0x05]);
    run(&mut m, 1);
    assert_eq!(m.cycle(), Err(Chip8Error::OutOfBounds));
    assert!(m.get_display().iter().all(|&p| !p));
}

#[test]
fn reset_restores_initial_state() {
    let mut m = machine_with(&[0x60, 0x05, 0xF0, 0x15, 0xF0, 0x18, 0xA0, 0x50, 0xD0, 0x05, 0x23, 0x00]);
    m.keypress(3, true);
    run(&mut m, 6);
    m.reset();
    let fresh = Chip8::new();
    assert_eq!(m.program_counter(), fresh.program_counter());
    assert_eq!(m.index_register(), 0);
    assert_eq!(m.stack_pointer(), 0);
    assert_eq!(m.delay_timer(), 0);
    assert_eq!(m.sound_timer(), 0);
    for x in 0..16 {
        assert_eq!(m.register(x), 0);
        assert!(!m.key(x));
        assert_eq!(m.stack_entry(x), 0);
    }
    for a in 0..4096 {
        assert_eq!(m.memory(a), fresh.memory(a));
    }
    assert_eq!(m.get_display(), fresh.get_display());
}
