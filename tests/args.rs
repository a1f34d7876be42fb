use yayachip8rsemu::args::Args;
use yayachip8rsemu::quirks::QuirksConfig;

fn args(stop: bool) -> Args {
    Args {
        file: String::from("rom.ch8"),
        offset: 0x300,
        start: 0x300,
        pixel_size: 16,
        stop,
        debug_mode: false,
        quirks_config: QuirksConfig::get_chip8(),
    }
}

#[test]
fn args_load_at_offset() {
    let s = args(false).create_chip8(&vec![0x6A, 0x05]).unwrap();
    assert_eq!(s.pc(), 0x300);
    assert_eq!(s.memory().read(0x300, 2), vec![0x6A, 0x05]);
    assert_eq!(s.memory().read(0x200, 2), vec![0, 0]);
    assert!(!s.is_stopped());
}

#[test]
fn args_start_stopped() {
    let mut s = args(true).create_chip8(&vec![0x6A, 0x05]).unwrap();
    assert!(s.is_stopped());
    s.emulate_instruction().unwrap();
    assert_eq!(s.reg(0xA), 0);
}

#[test]
fn quirk_presets() {
    let c = QuirksConfig::get_chip8();
    assert!(c.vf_reset && c.memory && c.clipping && !c.shifting && !c.jumping);
    let s = QuirksConfig::get_super_chip();
    assert!(!s.vf_reset && !s.memory && s.clipping && s.shifting && s.jumping);
    let x = QuirksConfig::get_xo_chip();
    assert!(!x.vf_reset && x.memory && !x.clipping && !x.shifting && !x.jumping);
}
