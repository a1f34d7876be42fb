use yayachip8rsemu::quirks::QuirksConfig;
use yayachip8rsemu::state::Chip8State;

fn machine(program: &[u8]) -> Chip8State {
    Chip8State::create(&program.to_vec(), 0x200, 0x200, QuirksConfig::get_chip8()).unwrap()
}

const COUNTING: [u8; 8] = [0x60, 0x01, 0x61, 0x02, 0x62, 0x03, 0x63, 0x04];

#[test]
fn breakpoint_stops_after_retiring() {
    let mut s = machine(&COUNTING);
    s.add_breakpoint(0x202);
    s.emulate_instruction().unwrap();
    assert_eq!(s.reg(0), 1);
    assert_eq!(s.pc(), 0x202);
    assert!(s.is_stopped());
    s.emulate_instruction().unwrap();
    assert_eq!(s.pc(), 0x202);
    assert_eq!(s.reg(1), 0);
    s.continue_execution();
    s.emulate_instruction().unwrap();
    assert_eq!(s.reg(1), 2);
    assert_eq!(s.pc(), 0x204);
    assert!(!s.is_stopped());
}

#[test]
fn breakpoint_on_start_does_not_block() {
    let mut s = machine(&COUNTING);
    s.add_breakpoint(0x200);
    s.emulate_instruction().unwrap();
    assert_eq!(s.reg(0), 1);
    assert!(!s.is_stopped());
}

#[test]
fn breakpoints_are_a_set() {
    let mut s = machine(&COUNTING);
    s.add_breakpoint(0x204);
    s.add_breakpoint(0x202);
    s.add_breakpoint(0x204);
    assert_eq!(s.breakpoints(), vec![0x204, 0x202]);
    assert_eq!(s.remove_breakpoint(0), Some(0x204));
    assert_eq!(s.breakpoints(), vec![0x202]);
    assert_eq!(s.remove_breakpoint(5), None);
    assert_eq!(s.breakpoints(), vec![0x202]);
}

#[test]
fn step_counts_accumulate() {
    let mut s = machine(&COUNTING);
    s.stop_execution();
    s.emulate_instruction().unwrap();
    assert_eq!(s.pc(), 0x200);
    s.step(1);
    s.step(2);
    assert_eq!(s.steps_to_stop(), 3);
    assert!(!s.is_stopped());
    for _ in 0..5 {
        s.emulate_instruction().unwrap();
    }
    assert_eq!(s.pc(), 0x206);
    assert!(s.is_stopped());
    assert_eq!(s.steps_to_stop(), 0);
}

#[test]
fn step_count_saturates() {
    let mut s = machine(&COUNTING);
    s.step(u16::MAX);
    s.step(10);
    assert_eq!(s.steps_to_stop(), u16::MAX);
}

#[test]
fn stop_clears_pending_steps() {
    let mut s = machine(&COUNTING);
    s.step(3);
    s.stop_execution();
    assert!(s.is_stopped());
    assert_eq!(s.steps_to_stop(), 0);
    s.step(2);
    s.continue_execution();
    assert_eq!(s.steps_to_stop(), 0);
    assert!(!s.is_stopped());
}

#[test]
fn snapshot_restore_round_trip() {
    let mut s = machine(&[0x60, 0x01, 0xA3, 0x00, 0xD0, 0x15, 0x22, 0x00]);
    s.emulate_instruction().unwrap();
    let snap = s.snapshot();
    let before_screen = *s.screen();
    let before_mem = s.memory().read(0, 4096);
    for _ in 0..3 {
        s.emulate_instruction().unwrap();
    }
    assert_eq!(s.pc(), 0x200);
    assert_eq!(s.stack_depth(), 1);
    s.restore(&snap);
    assert_eq!(s.pc(), 0x202);
    assert_eq!(s.reg(0), 1);
    assert_eq!(s.reg(0xF), 0);
    assert_eq!(s.addr(), 0);
    assert_eq!(s.stack_depth(), 0);
    assert_eq!(*s.screen(), before_screen);
    assert_eq!(s.memory().read(0, 4096), before_mem);
    let again = s.snapshot();
    s.restore(&again);
    assert_eq!(s.pc(), 0x202);
}

#[test]
fn key_wait_resumes_on_fresh_press() {
    let mut s = machine(&[0xF2, 0x0A, 0x63, 0x05]);
    let mut keys = [false; 16];
    keys[0x7] = true;
    s.set_keys(keys);
    s.emulate_instruction().unwrap();
    assert!(s.is_waiting_for_key());
    assert_eq!(s.pc(), 0x202);
    s.emulate_instruction().unwrap();
    assert_eq!(s.pc(), 0x202);
    s.set_keys(keys);
    assert!(s.is_waiting_for_key());
    keys[0x1] = true;
    s.set_keys(keys);
    s.emulate_instruction().unwrap();
    assert_eq!(s.reg(2), 1);
    assert!(!s.is_waiting_for_key());
    assert_eq!(s.reg(3), 5);
    assert_eq!(s.pc(), 0x204);
}

#[test]
fn key_wait_takes_lowest_fresh_key() {
    let mut s = machine(&[0xF4, 0x0A]);
    s.emulate_instruction().unwrap();
    let mut keys = [false; 16];
    keys[0xC] = true;
    keys[0x9] = true;
    s.set_keys(keys);
    assert_eq!(s.reg(4), 9);
    assert!(s.key_pressed(0xC));
}

#[test]
fn time_multiplier_refuses_zero() {
    let mut s = machine(&COUNTING);
    assert_eq!(s.time_multiplier(), 1000);
    assert!(s.set_time_multiplier(2000));
    assert_eq!(s.time_multiplier(), 2000);
    assert!(!s.set_time_multiplier(0));
    assert_eq!(s.time_multiplier(), 2000);
}
