use chip8::{Chip8, Color, Pacer, Screen, Timers, FLAG, SCREEN_HEIGHT, SCREEN_SIZE, SCREEN_WIDTH, TIMER_PERIOD_NS};

fn run(program: &[u8], steps: usize) -> Chip8 {
    let mut c = Chip8::new(program, true, true).unwrap();
    for _ in 0..steps {
        c.fetch_execute_cycle_with(0).unwrap();
    }
    c
}

fn lit(screen: &Screen) -> Vec<(usize, usize)> {
    let mut r = Vec::new();
    for y in 0..SCREEN_HEIGHT {
        for x in 0..SCREEN_WIDTH {
            if screen.pixel(x, y) == Color::White {
                r.push((x, y));
            }
        }
    }
    r
}

#[test]
fn draw_digit_sprite() {
    // V0 = 10, V1 = 3, I = sprite of 0, draw 5 rows.
    let c = run(&[0x60, 10, 0x61, 3, 0xA0, 0x00, 0xD0, 0x15], 4);
    assert_eq!(c.register(FLAG), 0);
    let on = lit(&c.screen);
    // 0xF0 0x90 0x90 0x90 0xF0: 4 + 2 + 2 + 2 + 4 pixels.
    assert_eq!(on.len(), 14);
    assert!(on.contains(&(10, 3)));
    assert!(on.contains(&(13, 3)));
    assert!(!on.contains(&(14, 3)));
    assert!(on.contains(&(13, 5)));
    assert!(!on.contains(&(11, 5)));
}

#[test]
fn draw_twice_restores_and_collides() {
    let mut c = run(&[0x60, 10, 0x61, 3, 0xA0, 0x00, 0xD0, 0x15, 0xD0, 0x15], 4);
    c.fetch_execute_cycle().unwrap();
    assert_eq!(c.register(FLAG), 1);
    assert!(lit(&c.screen).is_empty());
}

#[test]
fn draw_collision_only_on_overlap() {
    // Digit 1 (0x20 0x60 0x20 0x20 0x70) at (0, 0), then one row 0xF0 at (4, 0): no overlap.
    let c = run(&[0xA0, 0x05, 0x60, 0x00, 0xD0, 0x05, 0xA0, 0x00, 0x61, 0x04, 0xD1, 0x01], 6);
    assert_eq!(c.register(FLAG), 0);
    // Same row at (0, 0) overlaps bit 2 of digit 1's first row.
    let c = run(&[0xA0, 0x05, 0x60, 0x00, 0xD0, 0x05, 0xA0, 0x00, 0xD0, 0x01], 5);
    assert_eq!(c.register(FLAG), 1);
    assert_eq!(c.screen.pixel(2, 0), Color::Black);
    assert_eq!(c.screen.pixel(0, 0), Color::White);
}

#[test]
fn draw_clips_at_right_edge() {
    // A full row 0xFF stored at 0x300 from V0, then drawn at column 63.
    let c = run(&[0x60, 0xFF, 0xA3, 0x00, 0xF0, 0x55, 0x60, 63, 0x61, 0, 0xD0, 0x11], 6);
    assert_eq!(lit(&c.screen), vec![(63, 0)]);
    assert_eq!(c.register(FLAG), 0);
}

#[test]
fn draw_clips_at_bottom_and_wraps_start() {
    // V0 = 64 + 2 draws at column 2; V1 = 31 leaves one visible row.
    let c = run(&[0x60, 66, 0x61, 31, 0xA0, 0x00, 0xD0, 0x15], 4);
    assert_eq!(lit(&c.screen), vec![(2, 31), (3, 31), (4, 31), (5, 31)]);
}

#[test]
fn clear_screen_instruction() {
    let mut c = run(&[0xA0, 0x00, 0xD0, 0x05, 0x00, 0xE0], 2);
    assert!(!lit(&c.screen).is_empty());
    c.fetch_execute_cycle().unwrap();
    assert!(lit(&c.screen).is_empty());
}

#[test]
fn screen_bytes_rows_and_text() {
    let mut s = Screen::default();
    s.set_pixel(1, 0, Color::White);
    s.set_pixel(63, 31, Color::White);
    let bytes = s.to_bytes();
    assert_eq!(bytes.len(), SCREEN_SIZE);
    assert_eq!(bytes[0], 0x00);
    assert_eq!(bytes[1], 0xFF);
    assert_eq!(bytes[SCREEN_SIZE - 1], 0xFF);
    assert_eq!(bytes.iter().filter(|&&b| b == 0xFF).count(), 2);
    let row = s.row(31);
    assert_eq!(row.len(), SCREEN_WIDTH);
    assert_eq!(row[63], Color::White);
    assert_eq!(row[62], Color::Black);
    let text = s.to_text();
    let lines: Vec<&str> = text.lines().collect();
    assert_eq!(lines.len(), SCREEN_HEIGHT);
    assert_eq!(&lines[0][..3], ".O.");
    assert!(lines[31].ends_with(".O"));
    assert_eq!(text.len(), SCREEN_HEIGHT * (SCREEN_WIDTH + 1));
}

#[test]
fn screen_toggle_merge_and_clear() {
    let mut a = Screen::new();
    assert!(!a.toggle(5, 5));
    assert!(a.toggle(5, 5));
    assert_eq!(a.pixel(5, 5), Color::Black);
    a.toggle(1, 1);
    let mut b = Screen::new();
    b.toggle(2, 2);
    b.merge(&a);
    assert_eq!(lit(&b), vec![(1, 1), (2, 2)]);
    b.clear();
    assert!(lit(&b).is_empty());
}

#[test]
fn color_operations() {
    assert_eq!(Color::White.xor(Color::White), Color::Black);
    assert_eq!(Color::Black.xor(Color::White), Color::White);
    assert_eq!(Color::White.xor(Color::Black), Color::White);
    assert_eq!(Color::Black.xor(Color::Black), Color::Black);
    assert_eq!(Color::Black.or(Color::Black), Color::Black);
    assert_eq!(Color::Black.or(Color::White), Color::White);
    assert_eq!(Color::White.or(Color::Black), Color::White);
    assert_eq!(Color::White.to_byte(), 0xFF);
    assert_eq!(Color::Black.to_byte(), 0x00);
}

#[test]
fn timers_saturate_at_zero() {
    let mut t = Timers { delay_timer: 0, sound_timer: 2 };
    for _ in 0..5 {
        t.count_down();
        assert_ne!(t.delay_timer, 255);
    }
    assert_eq!((t.delay_timer, t.sound_timer), (0, 0));
    let mut t = Timers { delay_timer: 255, sound_timer: 1 };
    t.count_down();
    assert_eq!((t.delay_timer, t.sound_timer), (254, 0));
}

#[test]
fn pacer_counts_due_work() {
    let mut p = Pacer::new(700);
    // 1e9 / 700 = 1428571.43 ns per instruction.
    assert_eq!(p.update(TIMER_PERIOD_NS), (1, 11));
    assert_eq!(p.update(TIMER_PERIOD_NS - 1), (0, 12));
    assert_eq!(p.update(1_000_000), (1, 1));
    let mut p = Pacer::new(0);
    assert_eq!(p.update(u64::MAX), (u64::MAX / TIMER_PERIOD_NS, 1));
    let mut p = Pacer::new(u32::MAX);
    assert_eq!(p.update(5), (0, 5));
    let mut p = Pacer::new(2_000_000_000);
    assert_eq!(p.update(3), (0, 3));
    let mut p = Pacer::new(3);
    assert_eq!(p.update(1_000_000_000), (59, 3));
}

#[test]
fn keypad_layout_maps_left_block() {
    let labels = ['1', '2', '3', '4', 'Q', 'W', 'E', 'R', 'A', 'S', 'D', 'F', 'Z', 'X', 'C', 'V'];
    let keys = [0x1, 0x2, 0x3, 0xC, 0x4, 0x5, 0x6, 0xD, 0x7, 0x8, 0x9, 0xE, 0xA, 0x0, 0xB, 0xF];
    for (label, key) in labels.iter().zip(keys.iter()) {
        assert_eq!(chip8::keypad_key(*label), Some(*key));
    }
    assert_eq!(chip8::keypad_key('5'), None);
    assert_eq!(chip8::keypad_key('q'), None);
    assert_eq!(chip8::keypad_key('T'), None);
}

#[test]
fn tone_follows_sound_timer() {
    let mut t = Timers { delay_timer: 5, sound_timer: 1 };
    assert!(t.tone_on());
    t.count_down();
    assert!(!t.tone_on());
    assert_eq!(t.delay_timer, 4);
}
