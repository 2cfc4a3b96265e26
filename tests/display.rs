use chip8::display::Display;

#[test]
fn display_starts_blank() {
    let d = Display::default();
    assert!(d.display.iter().all(|&p| !p));
}

#[test]
fn draw_sprite_xors_and_wraps() {
    let mut d = Display::default();
    d.draw_sprite(0, 0, &[0b1111_1111, 0b1000_0001]);
    assert!((0..8).all(|k| d.display[k]));
    assert!(d.display[64] && d.display[71]);
    assert!(!d.display[65]);
    d.draw_sprite(0, 0, &[0b1000_0000]);
    assert!(!d.display[0]);
    // the last pixel of the buffer wraps to the first
    let mut d = Display::default();
    d.draw_sprite(63, 31, &[0b1100_0000]);
    assert!(d.display[2047]);
    assert!(d.display[0]);
}
