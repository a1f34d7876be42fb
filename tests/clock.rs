use yayachip8rsemu::clock::{cpu_period, timer_period, TickClock};

#[test]
fn timer_ticks_sixty_times_a_second() {
    let period = timer_period(1000);
    assert_eq!(period, 16_666_666);
    let mut c = TickClock::new(period, 0);
    let mut ticks = 0u64;
    for k in 1..=1000u64 {
        if c.poll(k * 1_000_000) {
            ticks += 1;
        }
    }
    assert_eq!(ticks, 1_000_000_000 / period);
    assert_eq!(ticks, 60);
}

#[test]
fn clock_carries_excess_forward() {
    let mut c = TickClock::new(10, 0);
    assert!(!c.poll(9));
    assert!(c.poll(13));
    assert!(!c.poll(19));
    assert!(c.poll(20));
    assert_eq!(c.last(), 20);
    let mut ticks = 2;
    for t in 21..=100u64 {
        if c.poll(t) {
            ticks += 1;
        }
    }
    assert_eq!(ticks, 10);
}

#[test]
fn periods_scale_with_speed() {
    assert_eq!(timer_period(2000), 8_333_333);
    assert_eq!(cpu_period(1000), 1_000_000);
    assert_eq!(cpu_period(250), 4_000_000);
}
