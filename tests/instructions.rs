use chip8::{Chip8, Error, FLAG, MAX_PROGRAM_LEN, MEMORY_SIZE, PROGRAM_START, SPRITES_FOR_DIGITS};

fn load(program: &[u8], shift_quirks: bool, load_store_quirks: bool) -> Chip8 {
    match Chip8::new(program, shift_quirks, load_store_quirks) {
        Ok(c) => c,
        Err(e) => panic!("program refused: {:?}", e),
    }
}

fn run(program: &[u8], steps: usize) -> Chip8 {
    let mut c = load(program, true, true);
    for _ in 0..steps {
        c.fetch_execute_cycle_with(0).unwrap();
    }
    c
}

#[test]
fn load_add_scenario() {
    let mut c = load(&[0x60, 0x05, 0x70, 0x03, 0x00, 0x00], true, true);
    c.fetch_execute_cycle().unwrap();
    c.fetch_execute_cycle().unwrap();
    assert_eq!(c.register(0), 8);
    assert_eq!(c.pc(), PROGRAM_START + 4);
}

#[test]
fn call_then_return_scenario() {
    let mut program = vec![0u8; 10];
    program[0] = 0x22;
    program[1] = 0x08;
    program[8] = 0x00;
    program[9] = 0xEE;
    let mut c = load(&program, true, true);
    c.fetch_execute_cycle().unwrap();
    assert_eq!(c.pc(), 0x208);
    assert_eq!(c.call_depth(), 1);
    c.fetch_execute_cycle().unwrap();
    assert_eq!(c.pc(), 0x202);
    assert_eq!(c.call_depth(), 0);
}

#[test]
fn new_lays_out_memory() {
    let c = load(&[0xAB, 0xCD, 0xEF], false, true);
    for a in 0..SPRITES_FOR_DIGITS.len() {
        assert_eq!(c.memory(a), SPRITES_FOR_DIGITS[a]);
    }
    assert_eq!(c.memory(0x000), 0xF0);
    assert_eq!(c.memory(0x04F), 0x80);
    for a in SPRITES_FOR_DIGITS.len()..PROGRAM_START {
        assert_eq!(c.memory(a), 0);
    }
    assert_eq!(c.memory(0x200), 0xAB);
    assert_eq!(c.memory(0x201), 0xCD);
    assert_eq!(c.memory(0x202), 0xEF);
    for a in 0x203..MEMORY_SIZE {
        assert_eq!(c.memory(a), 0);
    }
    assert_eq!(c.pc(), 0x200);
    assert_eq!(c.index_register(), 0);
    assert_eq!(c.call_depth(), 0);
    assert!(!c.shift_quirks());
    assert!(c.load_store_quirks());
    for x in 0..16 {
        assert_eq!(c.register(x), 0);
    }
    assert_eq!(c.timers.delay_timer, 0);
    assert_eq!(c.timers.sound_timer, 0);
    assert!(c.is_key_pressed.iter().all(|&k| !k));
}

#[test]
fn new_accepts_largest_program() {
    let program = vec![0x12u8; MAX_PROGRAM_LEN];
    let c = load(&program, true, true);
    assert_eq!(c.memory(MEMORY_SIZE - 1), 0x12);
}

#[test]
fn new_rejects_too_large_program() {
    let program = vec![0u8; MAX_PROGRAM_LEN + 1];
    match Chip8::new(&program, true, true) {
        Err(Error::ProgramTooLarge { len }) => assert_eq!(len, 3585),
        other => panic!("unexpected: {:?}", other.map(|_| ())),
    }
}

#[test]
fn add_with_carry_sets_flag_iff_overflow() {
    for a in (0u16..256).step_by(3) {
        for b in (0u16..256).step_by(5) {
            let c = run(&[0x61, a as u8, 0x62, b as u8, 0x81, 0x24], 3);
            assert_eq!(c.register(1) as u16, (a + b) % 256);
            assert_eq!(c.register(FLAG), if a + b > 255 { 1 } else { 0 });
        }
    }
    let c = run(&[0x61, 0xFF, 0x62, 0x01, 0x81, 0x24], 3);
    assert_eq!((c.register(1), c.register(FLAG)), (0x00, 1));
    let c = run(&[0x61, 0x64, 0x62, 0x64, 0x81, 0x24], 3);
    assert_eq!((c.register(1), c.register(FLAG)), (200, 0));
}

#[test]
fn subtract_with_borrow_sets_flag_iff_no_borrow() {
    for a in (0i32..256).step_by(3) {
        for b in (0i32..256).step_by(5) {
            let c = run(&[0x61, a as u8, 0x62, b as u8, 0x81, 0x25], 3);
            assert_eq!(c.register(1) as i32, (a - b).rem_euclid(256));
            assert_eq!(c.register(FLAG), if a >= b { 1 } else { 0 });
        }
    }
    let c = run(&[0x61, 0x05, 0x62, 0x05, 0x81, 0x25], 3);
    assert_eq!((c.register(1), c.register(FLAG)), (0, 1));
    let c = run(&[0x61, 0x03, 0x62, 0x05, 0x81, 0x25], 3);
    assert_eq!((c.register(1), c.register(FLAG)), (0xFE, 0));
}

#[test]
fn reverse_subtract_sets_flag() {
    let c = run(&[0x61, 0x03, 0x62, 0x05, 0x81, 0x27], 3);
    assert_eq!((c.register(1), c.register(FLAG)), (2, 1));
    let c = run(&[0x61, 0x05, 0x62, 0x03, 0x81, 0x27], 3);
    assert_eq!((c.register(1), c.register(FLAG)), (0xFE, 0));
}

#[test]
fn bitwise_operations() {
    let c = run(&[0x61, 0b1100, 0x62, 0b1010, 0x81, 0x21], 3);
    assert_eq!(c.register(1), 0b1110);
    let c = run(&[0x61, 0b1100, 0x62, 0b1010, 0x81, 0x22], 3);
    assert_eq!(c.register(1), 0b1000);
    let c = run(&[0x61, 0b1100, 0x62, 0b1010, 0x81, 0x23], 3);
    assert_eq!(c.register(1), 0b0110);
    let c = run(&[0x62, 0x42, 0x81, 0x20], 2);
    assert_eq!(c.register(1), 0x42);
}

#[test]
fn add_immediate_wraps_without_flag() {
    let c = run(&[0x6F, 0x07, 0x61, 0xFE, 0x71, 0x05], 3);
    assert_eq!(c.register(1), 0x03);
    assert_eq!(c.register(FLAG), 0x07);
}

#[test]
fn flag_register_as_destination_keeps_the_flag() {
    let c = run(&[0x6F, 0xFF, 0x61, 0x01, 0x8F, 0x14], 3);
    assert_eq!(c.register(FLAG), 1);
}

#[test]
fn shift_left_quirk_selects_source() {
    let program = [0x61, 0x81, 0x62, 0x03, 0x81, 0x2E];
    let mut c = load(&program, true, true);
    for _ in 0..3 {
        c.fetch_execute_cycle().unwrap();
    }
    assert_eq!((c.register(1), c.register(FLAG)), (0x02, 1));
    let mut c = load(&program, false, true);
    for _ in 0..3 {
        c.fetch_execute_cycle().unwrap();
    }
    assert_eq!((c.register(1), c.register(FLAG)), (0x06, 0));
}

#[test]
fn shift_right_quirk_selects_source() {
    let program = [0x61, 0x81, 0x62, 0x06, 0x81, 0x26];
    let mut c = load(&program, true, true);
    for _ in 0..3 {
        c.fetch_execute_cycle().unwrap();
    }
    assert_eq!((c.register(1), c.register(FLAG)), (0x40, 1));
    let mut c = load(&program, false, true);
    for _ in 0..3 {
        c.fetch_execute_cycle().unwrap();
    }
    assert_eq!((c.register(1), c.register(FLAG)), (0x03, 0));
}

#[test]
fn store_quirk_keeps_or_advances_index() {
    let program = [0x60, 0x0A, 0x61, 0x0B, 0x62, 0x0C, 0x63, 0x0D, 0xA3, 0x00, 0xF3, 0x55];
    let mut c = load(&program, true, true);
    for _ in 0..6 {
        c.fetch_execute_cycle().unwrap();
    }
    assert_eq!(c.index_register(), 0x300);
    assert_eq!(
        [c.memory(0x300), c.memory(0x301), c.memory(0x302), c.memory(0x303), c.memory(0x304)],
        [0x0A, 0x0B, 0x0C, 0x0D, 0x00]
    );
    let mut c = load(&program, true, false);
    for _ in 0..6 {
        c.fetch_execute_cycle().unwrap();
    }
    assert_eq!(c.index_register(), 0x304);
}

#[test]
fn load_registers_with_and_without_quirk() {
    // I = 0x000, the sprite of digit 0: F0 90 90.
    let program = [0x63, 0x77, 0xA0, 0x00, 0xF2, 0x65];
    let mut c = load(&program, true, true);
    for _ in 0..3 {
        c.fetch_execute_cycle().unwrap();
    }
    assert_eq!([c.register(0), c.register(1), c.register(2), c.register(3)], [0xF0, 0x90, 0x90, 0x77]);
    assert_eq!(c.index_register(), 0x000);
    let mut c = load(&program, true, false);
    for _ in 0..3 {
        c.fetch_execute_cycle().unwrap();
    }
    assert_eq!(c.index_register(), 0x003);
}

#[test]
fn store_wraps_around_memory() {
    let program = [0x60, 0x11, 0x61, 0x22, 0xAF, 0xFF, 0xF1, 0x55];
    let c = run(&program, 4);
    assert_eq!(c.memory(0xFFF), 0x11);
    assert_eq!(c.memory(0x000), 0x22);
}

#[test]
fn bcd_of_register() {
    let c = run(&[0x65, 234, 0xA3, 0x00, 0xF5, 0x33], 3);
    assert_eq!([c.memory(0x300), c.memory(0x301), c.memory(0x302)], [2, 3, 4]);
    let c = run(&[0x65, 7, 0xA3, 0x00, 0xF5, 0x33], 3);
    assert_eq!([c.memory(0x300), c.memory(0x301), c.memory(0x302)], [0, 0, 7]);
}

#[test]
fn index_arithmetic() {
    let c = run(&[0x64, 0x0A, 0xF4, 0x29], 2);
    assert_eq!(c.index_register(), 50);
    let c = run(&[0x64, 0x1B, 0xF4, 0x29], 2);
    assert_eq!(c.index_register(), 55);
    let c = run(&[0x64, 0x10, 0xAF, 0xF8, 0xF4, 0x1E], 3);
    assert_eq!(c.index_register(), 0x1008);
}

#[test]
fn jumps_and_skips() {
    let c = run(&[0x13, 0x45], 1);
    assert_eq!(c.pc(), 0x345);
    let c = run(&[0x60, 0x10, 0xB3, 0x00], 2);
    assert_eq!(c.pc(), 0x310);
    let c = run(&[0x60, 0x05, 0x30, 0x05], 2);
    assert_eq!(c.pc(), 0x206);
    let c = run(&[0x60, 0x05, 0x30, 0x06], 2);
    assert_eq!(c.pc(), 0x204);
    let c = run(&[0x60, 0x05, 0x40, 0x06], 2);
    assert_eq!(c.pc(), 0x206);
    let c = run(&[0x60, 0x05, 0x61, 0x05, 0x50, 0x10], 3);
    assert_eq!(c.pc(), 0x208);
    let c = run(&[0x60, 0x05, 0x61, 0x06, 0x90, 0x10], 3);
    assert_eq!(c.pc(), 0x208);
}

#[test]
fn random_byte_is_masked() {
    let mut c = load(&[0xC3, 0x0F, 0xC4, 0x00], true, true);
    c.fetch_execute_cycle_with(0xFF).unwrap();
    assert_eq!(c.register(3), 0x0F);
    c.fetch_execute_cycle().unwrap();
    assert_eq!(c.register(4), 0x00);
    let mut c = load(&[0xC3, 0xF0], true, true);
    c.fetch_execute_cycle().unwrap();
    assert_eq!(c.register(3) & 0x0F, 0);
}

#[test]
fn key_skips_mask_the_key_number() {
    let mut c = load(&[0x61, 0x15, 0xE1, 0x9E], true, true);
    c.is_key_pressed[5] = true;
    c.fetch_execute_cycle().unwrap();
    c.fetch_execute_cycle().unwrap();
    assert_eq!(c.pc(), 0x206);
    let mut c = load(&[0x61, 0x05, 0xE1, 0xA1], true, true);
    c.fetch_execute_cycle().unwrap();
    c.fetch_execute_cycle().unwrap();
    assert_eq!(c.pc(), 0x206);
}

#[test]
fn wait_for_key_repeats_until_pressed() {
    let mut c = load(&[0xF2, 0x0A], true, true);
    c.fetch_execute_cycle().unwrap();
    assert_eq!(c.pc(), 0x200);
    c.fetch_execute_cycle().unwrap();
    assert_eq!(c.pc(), 0x200);
    c.is_key_pressed[0xC] = true;
    c.is_key_pressed[0x7] = true;
    c.fetch_execute_cycle().unwrap();
    assert_eq!(c.pc(), 0x202);
    assert_eq!(c.register(2), 0x7);
}

#[test]
fn timers_set_and_read() {
    let mut c = load(&[0x61, 0x09, 0xF1, 0x15, 0xF1, 0x18, 0xF2, 0x07], true, true);
    for _ in 0..4 {
        c.fetch_execute_cycle().unwrap();
    }
    assert_eq!(c.timers.delay_timer, 9);
    assert_eq!(c.timers.sound_timer, 9);
    assert_eq!(c.register(2), 9);
    c.timers.count_down();
    assert_eq!((c.timers.delay_timer, c.timers.sound_timer), (8, 8));
}

#[test]
fn return_with_empty_stack_underflows() {
    let mut c = load(&[0x61, 0x2A, 0x00, 0xEE], true, true);
    c.fetch_execute_cycle().unwrap();
    match c.fetch_execute_cycle() {
        Err(Error::CallStackUnderflow { address }) => assert_eq!(address, 0x202),
        other => panic!("unexpected: {:?}", other),
    }
    assert_eq!(c.register(1), 0x2A);
    assert_eq!(c.memory(0x202), 0x00);
    assert_eq!(c.memory(0x203), 0xEE);
    assert_eq!(c.index_register(), 0);
    assert_eq!(c.call_depth(), 0);
    assert_eq!(c.pc(), 0x204);
}

#[test]
fn invalid_program_counter() {
    let mut c = load(&[0x1F, 0xFF], true, true);
    c.fetch_execute_cycle().unwrap();
    match c.fetch_execute_cycle() {
        Err(Error::InvalidProgramCounter { pc }) => assert_eq!(pc, 0x1000),
        other => panic!("unexpected: {:?}", other),
    }
    assert_eq!(c.pc(), 0xFFF);
    let mut c = load(&[0x60, 0xFF, 0xBF, 0xFF], true, true);
    c.fetch_execute_cycle().unwrap();
    c.fetch_execute_cycle().unwrap();
    assert_eq!(c.pc(), 0x10FE);
    match c.fetch_execute_cycle() {
        Err(Error::InvalidProgramCounter { pc }) => assert_eq!(pc, 0x10FE),
        other => panic!("unexpected: {:?}", other),
    }
}

#[test]
fn not_well_formed_instructions() {
    for (word, pc) in [([0x81u8, 0x28u8], 0x200usize), ([0x91, 0x21], 0x200), ([0x51, 0x21], 0x200), ([0xE1, 0x00], 0x200), ([0xF1, 0x99], 0x200)] {
        let mut c = load(&word, true, true);
        match c.fetch_execute_cycle() {
            Err(Error::NotWellFormedInstruction { instruction, pc: at }) => {
                assert_eq!(instruction, u16::from_be_bytes(word));
                assert_eq!(at, pc);
            }
            other => panic!("unexpected: {:?}", other),
        }
        assert_eq!(c.pc(), 0x202);
        assert_eq!(c.register(1), 0);
    }
}

#[test]
fn unsupported_instruction() {
    let mut c = load(&[0x00, 0xE0, 0x01, 0x23], true, true);
    c.fetch_execute_cycle().unwrap();
    match c.fetch_execute_cycle() {
        Err(Error::UnsupportedInstruction { instruction, address }) => {
            assert_eq!(instruction, 0x0123);
            assert_eq!(address, 0x202);
        }
        other => panic!("unexpected: {:?}", other),
    }
}

#[test]
fn io_error_carries_its_cause() {
    let e = Error::Io { source: std::io::Error::new(std::io::ErrorKind::NotFound, "no rom") };
    match e {
        Error::Io { source } => assert_eq!(source.kind(), std::io::ErrorKind::NotFound),
        _ => panic!("wrong variant"),
    }
}
