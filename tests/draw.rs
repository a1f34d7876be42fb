use yayachip8rsemu::quirks::QuirksConfig;
use yayachip8rsemu::state::Chip8State;

const ZERO_GLYPH: [u8; 5] = [0xF0, 0x90, 0x90, 0x90, 0xF0];

fn with_sprite(program: &[u8], quirks: QuirksConfig) -> Chip8State {
    let mut s = Chip8State::create(&program.to_vec(), 0x200, 0x200, quirks).unwrap();
    s.load_memory(ZERO_GLYPH.to_vec(), 0x300).unwrap();
    s
}

#[test]
fn draw_twice_restores_screen() {
    let prog = [0xA3, 0x00, 0x60, 0x05, 0x61, 0x07, 0xD0, 0x15, 0xD0, 0x15];
    let mut s = with_sprite(&prog, QuirksConfig::get_chip8());
    for _ in 0..4 {
        s.emulate_instruction().unwrap();
    }
    assert_eq!(s.reg(0xF), 0);
    assert!(s.pixel(5, 7));
    assert!(s.pixel(8, 7));
    assert!(!s.pixel(6, 8));
    assert!(s.pixel(5, 8));
    assert_eq!(s.screen().iter().filter(|&&p| p).count(), 14);
    s.emulate_instruction().unwrap();
    assert_eq!(s.reg(0xF), 1);
    assert!(s.screen().iter().all(|&p| !p));
}

#[test]
fn draw_clips_at_edge() {
    let prog = [0xA3, 0x00, 0x60, 62, 0x61, 30, 0xD0, 0x15];
    let mut s = with_sprite(&prog, QuirksConfig::get_chip8());
    for _ in 0..4 {
        s.emulate_instruction().unwrap();
    }
    assert!(s.pixel(62, 30));
    assert!(s.pixel(63, 30));
    assert!(s.pixel(62, 31));
    assert!(!s.pixel(0, 30));
    assert!(!s.pixel(62, 0));
    assert_eq!(s.screen().iter().filter(|&&p| p).count(), 3);
}

#[test]
fn draw_wraps_without_clipping() {
    let prog = [0xA3, 0x00, 0x60, 62, 0x61, 30, 0xD0, 0x15];
    let mut s = with_sprite(&prog, QuirksConfig::get_xo_chip());
    for _ in 0..4 {
        s.emulate_instruction().unwrap();
    }
    assert!(s.pixel(62, 30));
    assert!(s.pixel(1, 30));
    assert!(s.pixel(62, 0));
    assert!(s.pixel(1, 2));
    assert_eq!(s.screen().iter().filter(|&&p| p).count(), 14);
}

#[test]
fn draw_origin_is_taken_modulo_screen() {
    let prog = [0xA3, 0x00, 0x60, 69, 0x61, 33, 0xD0, 0x11];
    let mut s = with_sprite(&prog, QuirksConfig::get_chip8());
    for _ in 0..4 {
        s.emulate_instruction().unwrap();
    }
    assert!(s.pixel(5, 1));
    assert!(s.pixel(8, 1));
    assert!(!s.pixel(9, 1));
}

#[test]
fn clear_display_blanks() {
    let prog = [0xA3, 0x00, 0xD0, 0x15, 0x00, 0xE0];
    let mut s = with_sprite(&prog, QuirksConfig::get_chip8());
    for _ in 0..2 {
        s.emulate_instruction().unwrap();
    }
    assert!(s.pixel(0, 0));
    s.emulate_instruction().unwrap();
    assert!(s.screen().iter().all(|&p| !p));
}
