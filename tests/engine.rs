use yayachip8rsemu::error::Chip8Error;
use yayachip8rsemu::quirks::QuirksConfig;
use yayachip8rsemu::state::Chip8State;

fn machine(program: &[u8], quirks: QuirksConfig) -> Chip8State {
    Chip8State::create(&program.to_vec(), 0x200, 0x200, quirks).unwrap()
}

fn run(state: &mut Chip8State, steps: usize) {
    for _ in 0..steps {
        state.emulate_instruction().unwrap();
    }
}

#[test]
fn end_to_end_clear_set_add() {
    let mut s = machine(&[0x00, 0xE0, 0x6A, 0x05, 0x7A, 0x01], QuirksConfig::get_chip8());
    run(&mut s, 3);
    assert!(s.screen().iter().all(|&p| !p));
    assert_eq!(s.reg(0xA), 6);
    assert_eq!(s.pc(), 0x206);
}

#[test]
fn add_reg_sets_carry() {
    let mut s = machine(&[0x6A, 200, 0x6B, 100, 0x8A, 0xB4], QuirksConfig::get_chip8());
    run(&mut s, 3);
    assert_eq!(s.reg(0xA), 44);
    assert_eq!(s.reg(0xF), 1);
}

#[test]
fn add_reg_without_carry() {
    let mut s = machine(&[0x6A, 100, 0x6B, 155, 0x8A, 0xB4], QuirksConfig::get_chip8());
    run(&mut s, 3);
    assert_eq!(s.reg(0xA), 255);
    assert_eq!(s.reg(0xF), 0);
}

#[test]
fn add_reg_into_vf_keeps_flag() {
    let mut s = machine(&[0x6F, 200, 0x6B, 100, 0x8F, 0xB4], QuirksConfig::get_chip8());
    run(&mut s, 3);
    assert_eq!(s.reg(0xF), 1);
}

#[test]
fn sub_reg_with_borrow() {
    let mut s = machine(&[0x6A, 5, 0x6B, 10, 0x8A, 0xB5], QuirksConfig::get_chip8());
    run(&mut s, 3);
    assert_eq!(s.reg(0xA), 251);
    assert_eq!(s.reg(0xF), 0);
}

#[test]
fn sub_reg_without_borrow() {
    let mut s = machine(&[0x6A, 10, 0x6B, 5, 0x8A, 0xB5], QuirksConfig::get_chip8());
    run(&mut s, 3);
    assert_eq!(s.reg(0xA), 5);
    assert_eq!(s.reg(0xF), 1);
}

#[test]
fn sub_reg_equal_operands() {
    let mut s = machine(&[0x6A, 7, 0x6B, 7, 0x8A, 0xB5], QuirksConfig::get_chip8());
    run(&mut s, 3);
    assert_eq!(s.reg(0xA), 0);
    assert_eq!(s.reg(0xF), 1);
}

#[test]
fn reverse_sub_reg_values() {
    let mut s = machine(&[0x6A, 10, 0x6B, 3, 0x8A, 0xB7], QuirksConfig::get_chip8());
    run(&mut s, 3);
    assert_eq!(s.reg(0xA), 249);
    assert_eq!(s.reg(0xF), 0);
}

#[test]
fn shift_right_legacy_uses_vy() {
    let mut s = machine(&[0x6A, 0x00, 0x6B, 0x03, 0x8A, 0xB6], QuirksConfig::get_chip8());
    run(&mut s, 3);
    assert_eq!(s.reg(0xA), 0x01);
    assert_eq!(s.reg(0xF), 0x01);
}

#[test]
fn shift_right_in_place_ignores_vy() {
    let mut s = machine(&[0x6A, 0x00, 0x6B, 0x03, 0x8A, 0xB6], QuirksConfig::get_super_chip());
    run(&mut s, 3);
    assert_eq!(s.reg(0xA), 0x00);
    assert_eq!(s.reg(0xF), 0x00);
}

#[test]
fn shift_left_bit_out() {
    let mut s = machine(&[0x6A, 0x81, 0x8A, 0xAE], QuirksConfig::get_super_chip());
    run(&mut s, 2);
    assert_eq!(s.reg(0xA), 0x02);
    assert_eq!(s.reg(0xF), 1);
}

#[test]
fn bitwise_vf_reset_quirk() {
    let mut s = machine(&[0x6F, 9, 0x6A, 0x0C, 0x6B, 0x0A, 0x8A, 0xB1], QuirksConfig::get_chip8());
    run(&mut s, 4);
    assert_eq!(s.reg(0xA), 0x0E);
    assert_eq!(s.reg(0xF), 0);
    let mut t = machine(&[0x6F, 9, 0x6A, 0x0C, 0x6B, 0x0A, 0x8A, 0xB2], QuirksConfig::get_xo_chip());
    run(&mut t, 4);
    assert_eq!(t.reg(0xA), 0x08);
    assert_eq!(t.reg(0xF), 9);
}

#[test]
fn jump_with_offset_quirk() {
    let mut s = machine(&[0x60, 0x04, 0x62, 0x10, 0xB2, 0x00], QuirksConfig::get_chip8());
    run(&mut s, 3);
    assert_eq!(s.pc(), 0x204);
    let mut t = machine(&[0x60, 0x04, 0x62, 0x10, 0xB2, 0x00], QuirksConfig::get_super_chip());
    run(&mut t, 3);
    assert_eq!(t.pc(), 0x210);
}

#[test]
fn bcd_and_register_dump_load() {
    let prog = [0x6A, 254, 0xA3, 0x00, 0xFA, 0x33, 0xF2, 0x65];
    let mut s = machine(&prog, QuirksConfig::get_chip8());
    run(&mut s, 4);
    assert_eq!(s.memory().read(0x300, 3), vec![2, 5, 4]);
    assert_eq!(s.reg(0), 2);
    assert_eq!(s.reg(1), 5);
    assert_eq!(s.reg(2), 4);
    assert_eq!(s.addr(), 0x303);
    let mut t = machine(&prog, QuirksConfig::get_super_chip());
    run(&mut t, 4);
    assert_eq!(t.addr(), 0x300);
}

#[test]
fn index_register_wraps() {
    let mut s = machine(&[0xAF, 0xFF, 0x6A, 0x02, 0xFA, 0x1E], QuirksConfig::get_chip8());
    run(&mut s, 3);
    assert_eq!(s.addr(), 0x001);
}

#[test]
fn call_and_return() {
    let mut s = machine(&[0x22, 0x04, 0x00, 0x00, 0x00, 0xEE], QuirksConfig::get_chip8());
    run(&mut s, 1);
    assert_eq!(s.pc(), 0x204);
    assert_eq!(s.stack_depth(), 1);
    run(&mut s, 1);
    assert_eq!(s.pc(), 0x202);
    assert_eq!(s.stack_depth(), 0);
}

#[test]
fn skips_on_equal_and_keys() {
    let mut s = machine(&[0x6A, 0x03, 0x3A, 0x03, 0x00, 0x00, 0xEA, 0x9E], QuirksConfig::get_chip8());
    run(&mut s, 2);
    assert_eq!(s.pc(), 0x206);
    let mut keys = [false; 16];
    keys[3] = true;
    s.set_keys(keys);
    run(&mut s, 1);
    assert_eq!(s.pc(), 0x20A);
}

#[test]
fn timers_count_down() {
    let mut s = machine(&[0x6A, 0x02, 0xFA, 0x15, 0xFA, 0x18], QuirksConfig::get_chip8());
    run(&mut s, 3);
    assert_eq!(s.delay_timer(), 2);
    s.tick_timers();
    s.tick_timers();
    s.tick_timers();
    assert_eq!(s.delay_timer(), 0);
    assert_eq!(s.sound_timer(), 0);
}

#[test]
fn random_is_masked() {
    let mut s = machine(&[0xCA, 0x00, 0xCB, 0x0F], QuirksConfig::get_chip8());
    run(&mut s, 2);
    assert_eq!(s.reg(0xA), 0);
    assert!(s.reg(0xB) <= 0x0F);
    let mut t = machine(&[0xCA, 0x3C], QuirksConfig::get_chip8());
    t.emulate_instruction_with(0xFF).unwrap();
    assert_eq!(t.reg(0xA), 0x3C);
}

#[test]
fn bad_instruction_is_reported() {
    let mut s = machine(&[0xFF, 0xFF], QuirksConfig::get_chip8());
    assert_eq!(s.emulate_instruction(), Err(Chip8Error::BadInstruction(0xFFFF)));
    assert_eq!(s.pc(), 0x200);
    assert!(!s.is_stopped());
}

#[test]
fn stack_underflow_stops() {
    let mut s = machine(&[0x00, 0xEE], QuirksConfig::get_chip8());
    assert_eq!(s.emulate_instruction(), Err(Chip8Error::StackUnderflow));
    assert!(s.is_stopped());
    assert_eq!(s.pc(), 0x200);
}

#[test]
fn stack_overflow_stops() {
    let mut s = machine(&[0x22, 0x00], QuirksConfig::get_chip8());
    run(&mut s, 16);
    assert_eq!(s.stack_depth(), 16);
    assert_eq!(s.emulate_instruction(), Err(Chip8Error::StackOverflow));
    assert!(s.is_stopped());
    assert_eq!(s.stack_depth(), 16);
}

#[test]
fn image_too_large_is_refused() {
    let image = vec![0u8; 3585];
    assert!(matches!(
        Chip8State::create(&image, 0x200, 0x200, QuirksConfig::get_chip8()),
        Err(Chip8Error::AddressOverflow)
    ));
    assert!(Chip8State::create(&vec![0u8; 3584], 0x200, 0x200, QuirksConfig::get_chip8()).is_ok());
    assert!(matches!(
        Chip8State::create(&vec![], 0x200, 0x1000, QuirksConfig::get_chip8()),
        Err(Chip8Error::AddressOverflow)
    ));
    assert!(matches!(
        Chip8State::from_memory(vec![0u8; 4097], QuirksConfig::get_chip8()),
        Err(Chip8Error::AddressOverflow)
    ));
}

#[test]
fn load_memory_bounds() {
    let mut s = Chip8State::new(QuirksConfig::get_chip8());
    assert!(s.load_memory(vec![1, 2, 3], 4093).is_ok());
    assert_eq!(s.memory().read(4093, 3), vec![1, 2, 3]);
    assert_eq!(s.load_memory(vec![1, 2], 4095), Err(Chip8Error::AddressOverflow));
}

#[test]
fn execute_stops_on_stack_errors() {
    let mut s = Chip8State::new(QuirksConfig::get_chip8());
    s.step(5);
    assert_eq!(s.return_from_subroutine(0x00EE), Err(Chip8Error::StackUnderflow));
    assert!(s.is_stopped());
    assert_eq!(s.steps_to_stop(), 0);
    assert_eq!(s.pc(), 0);
    s.continue_execution();
    for _ in 0..16 {
        assert_eq!(s.call(0x2300), Ok(()));
    }
    s.step(2);
    assert_eq!(s.execute(0x2300, 0), Err(Chip8Error::StackOverflow));
    assert!(s.is_stopped());
    assert_eq!(s.steps_to_stop(), 0);
    assert_eq!(s.stack_depth(), 16);
    assert_eq!(s.pc(), 0x300);
}

#[test]
fn execute_keeps_running_on_bad_instruction() {
    let mut s = Chip8State::new(QuirksConfig::get_chip8());
    s.step(3);
    assert_eq!(s.execute(0x5121, 0), Err(Chip8Error::BadInstruction(0x5121)));
    assert!(!s.is_stopped());
    assert_eq!(s.steps_to_stop(), 3);
}
