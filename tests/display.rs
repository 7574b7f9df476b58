use chip8dynarec::display::Display;
use chip8dynarec::keyboard::Keyboard;

#[test]
fn drawing_a_byte_twice_collides_and_clears() {
    let mut d = Display::new();
    assert!(!d.draw_sprite(10, 5, &[0b1010_0001]));
    assert_eq!(d.frame_buffer[5 * 64 + 10], 1);
    assert_eq!(d.frame_buffer[5 * 64 + 11], 0);
    assert_eq!(d.frame_buffer[5 * 64 + 17], 1);
    assert!(d.draw_sprite(10, 5, &[0b1010_0001]));
    assert!(d.frame_buffer.iter().all(|&p| p == 0));
}

#[test]
fn sprites_wrap_around_both_edges() {
    let mut d = Display::new();
    assert!(!d.draw_sprite(62, 31, &[0xFF, 0x80]));
    assert_eq!(d.frame_buffer[31 * 64 + 62], 1);
    assert_eq!(d.frame_buffer[31 * 64 + 63], 1);
    assert_eq!(d.frame_buffer[31 * 64 + 0], 1);
    assert_eq!(d.frame_buffer[31 * 64 + 5], 1);
    assert_eq!(d.frame_buffer[31 * 64 + 6], 0);
    assert_eq!(d.frame_buffer[0 * 64 + 62], 1);
    assert_eq!(d.frame_buffer[0 * 64 + 63], 0);
    assert_eq!(d.frame_buffer.iter().filter(|&&p| p == 1).count(), 9);
}

#[test]
fn coordinates_reduce_modulo_the_screen() {
    let mut d = Display::new();
    d.draw_sprite(64 + 3, 32 + 2, &[0x80]);
    assert_eq!(d.frame_buffer[2 * 64 + 3], 1);
}

#[test]
fn empty_sprite_draws_nothing() {
    let mut d = Display::new();
    assert!(!d.draw_sprite(0, 0, &[]));
    assert!(d.frame_buffer.iter().all(|&p| p == 0));
}

#[test]
fn refresh_lists_lit_squares_row_by_row() {
    let mut d = Display::new();
    d.draw_sprite(1, 2, &[0x80]);
    d.draw_sprite(0, 0, &[0x40]);
    assert_eq!(d.refresh(), vec![(8, 0), (8, 16)]);
    d.clear();
    assert!(d.refresh().is_empty());
}

#[test]
fn keypad_reports_held_keys() {
    let mut k = Keyboard::new();
    assert!(!k.is_pressed(3));
    k.set_key_state(3, true);
    assert!(k.is_pressed(3));
    assert!(!k.is_pressed(0x13));
    k.set_key_state(3, false);
    assert!(!k.is_pressed(3));
}
