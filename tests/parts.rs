use chip_8::display::Display;
use chip_8::error::Chip8Error;
use chip_8::keypad::Keypad;
use chip_8::mmu::Mmu;
use chip_8::stack::Stack;
use chip_8::Chip8;

#[test]
fn push_then_pop_returns_value() {
    let mut s = Stack::new();
    s.push(0x345).unwrap();
    assert_eq!(s.pop(), Ok(0x345));
    assert_eq!(s.len(), 0);
}

#[test]
fn twelve_pushes_pop_in_reverse() {
    let mut s = Stack::new();
    for a in 1..=12u16 {
        s.push(a * 0x10).unwrap();
    }
    assert_eq!(s.push(0x999), Err(Chip8Error::StackOverflow));
    for a in (1..=12u16).rev() {
        assert_eq!(s.pop(), Ok(a * 0x10));
    }
    assert_eq!(s.pop(), Err(Chip8Error::StackUnderflow));
}

#[test]
fn draw_wraps_on_both_axes_and_erases_on_redraw() {
    let mut d = Display::new();
    let hit = d.draw(60, 30, vec![0xFF, 0xFF]);
    assert!(!hit);
    let px = d.get_pixels();
    let cols = [60usize, 61, 62, 63, 0, 1, 2, 3];
    for x in 0..64 {
        for y in 0..32 {
            let lit = cols.contains(&x) && (y == 30 || y == 31);
            assert_eq!(px[x][y], if lit { 1 } else { 0 }, "pixel ({}, {})", x, y);
        }
    }
    let hit = d.draw(60, 30, vec![0xFF, 0xFF]);
    assert!(hit);
    assert!(d.get_pixels().iter().all(|col| col.iter().all(|&p| p == 0)));
}

#[test]
fn draw_reads_bits_most_significant_first() {
    let mut d = Display::new();
    assert!(!d.draw(2, 3, vec![0b1000_0001]));
    let px = d.get_pixels();
    assert_eq!(px[2][3], 1);
    assert_eq!(px[9][3], 1);
    assert_eq!(px[3][3], 0);
    // A partial overlap still reports a collision.
    assert!(d.draw(9, 3, vec![0b1100_0000]));
    let px = d.get_pixels();
    assert_eq!(px[9][3], 0);
    assert_eq!(px[10][3], 1);
}

#[test]
fn clear_is_idempotent() {
    let mut d = Display::new();
    d.draw(0, 0, vec![0xAA; 4]);
    d.clear();
    d.clear();
    assert!(d.get_pixels().iter().all(|col| col.iter().all(|&p| p == 0)));
}

#[test]
fn load_places_font_and_program() {
    let m = Mmu::load(&[0x12, 0x34]).unwrap();
    assert_eq!(m.read_byte(0x000), 0xF0);
    assert_eq!(m.read_byte(0x005), 0x20);
    assert_eq!(m.read_byte(0x04F), 0x80);
    assert_eq!(m.read_byte(0x050), 0x00);
    assert_eq!(m.read_byte(0x200), 0x12);
    assert_eq!(m.read_byte(0x201), 0x34);
    assert_eq!(m.read_byte(0x202), 0x00);
}

#[test]
fn load_rejects_oversized_program() {
    assert!(Mmu::load(&vec![0u8; 4096 - 0x200]).is_ok());
    assert_eq!(Mmu::load(&vec![0u8; 4096 - 0x200 + 1]).err(), Some(Chip8Error::RomTooLarge));
    assert!(Chip8::new(&vec![0u8; 5000]).is_err());
}

#[test]
fn memory_addresses_wrap() {
    let mut m = Mmu::load(&[]).unwrap();
    m.write_byte(0x1005, 0x77);
    assert_eq!(m.read_byte(0x005), 0x77);
    assert_eq!(m.read_byte(0xF005), 0x77);
}

#[test]
fn keypad_tracks_presses() {
    let mut k = Keypad::new();
    assert!(!k.get_key(3));
    assert_eq!(k.get_key_pressed(), None);
    k.press_key(3);
    assert!(k.get_key(3));
    assert!(!k.get_key(4));
    assert!(!k.get_key(200));
    assert_eq!(k.get_key_pressed(), Some(3));
    k.clear();
    assert!(!k.get_key(3));
    assert_eq!(k.get_key_pressed(), None);
}
