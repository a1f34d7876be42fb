use vstd::prelude::*;

verus! {

/// Nanoseconds in one second.
pub const NANOS_PER_SEC: u64 = 1_000_000_000;

/// Rate of the delay and sound timers, in ticks per second.
pub const TIMER_HZ: u64 = 60;

/// Rate at which instructions are retired at normal speed, per second.
pub const CPU_HZ: u64 = 1000;

/// A clock as a mathematical value: its period, the time carried over
/// from earlier ticks, and the time of its last tick, in nanoseconds.
pub struct ClockView {
    pub period: u64,
    pub excess: u64,
    pub last: u64,
}

/// One poll at time `now`: the clock ticks when the time since its last
/// tick plus the carried excess reaches a period; the remainder beyond the
/// period is carried forward.
pub open spec fn poll_spec(c: ClockView, now: u64) -> (ClockView, bool) {
    let total = if (now - c.last) + c.excess > u64::MAX {
        u64::MAX as int
    } else {
        (now - c.last) + c.excess
    };
    if total >= c.period {
        (ClockView { excess: (total - c.period) as u64, last: now, ..c }, true)
    } else {
        (c, false)
    }
}

/// Whether `times` never goes back and starts no earlier than `from`.
pub open spec fn ordered_from(from: u64, times: Seq<u64>) -> bool {
    forall|i: int| 0 <= i < times.len() ==> (if i == 0 { from } else { times[i - 1] }) <= #[trigger] times[i]
}

/// The clock after polls at each of `times` in turn, with the number of
/// ticks they produced.
pub open spec fn run_polls(c: ClockView, times: Seq<u64>) -> (ClockView, nat)
    decreases times.len(),
{
    if times.len() == 0 {
        (c, 0)
    } else {
        let (mid, ticks) = run_polls(c, times.drop_last());
        let (end, ticked) = poll_spec(mid, times.last());
        (end, if ticked { ticks + 1 } else { ticks })
    }
}

/// A periodic clock that never loses time: the part of each poll interval
/// beyond a period is carried into the next one.
pub struct TickClock {
    period: u64,
    excess: u64,
    last: u64,
}

impl View for TickClock {
    type V = ClockView;

    closed spec fn view(&self) -> ClockView {
        ClockView { period: self.period, excess: self.excess, last: self.last }
    }
}

impl TickClock {
    /// A clock with period `period` whose first period starts at `now`.
    pub fn new(period: u64, now: u64) -> (r: TickClock)
        ensures
            r@ == (ClockView { period, excess: 0, last: now }),
    {
        TickClock { period, excess: 0, last: now }
    }

    /// Polls the clock at time `now`, which must not be earlier than its
    /// last tick; returns whether it ticked.
    pub fn poll(&mut self, now: u64) -> (r: bool)
        requires
            now >= old(self)@.last,
        ensures
            (final(self)@, r) == poll_spec(old(self)@, now),
    {
        let total = (now - self.last).saturating_add(self.excess);
        if total >= self.period {
            self.excess = total - self.period;
            self.last = now;
            true
        } else {
            false
        }
    }

    /// Changes the period; time already carried over stays.
    pub fn set_period(&mut self, period: u64)
        ensures
            final(self)@ == (ClockView { period, ..old(self)@ }),
    {
        self.period = period;
    }

    /// The period, in nanoseconds.
    pub fn period(&self) -> (r: u64)
        ensures
            r == self@.period,
    {
        self.period
    }

    /// The time of the last tick.
    pub fn last(&self) -> (r: u64)
        ensures
            r == self@.last,
    {
        self.last
    }
}

/// Timer period in nanoseconds at a speed of `thousandths` of normal:
/// a sixtieth of a second at normal speed.
pub fn timer_period(thousandths: u32) -> (r: u64)
    requires
        thousandths > 0,
    ensures
        r == (NANOS_PER_SEC * 1000) / (TIMER_HZ * thousandths),
        r > 0,
{
    let d = TIMER_HZ * thousandths as u64;
    proof {
        vstd::arithmetic::div_mod::lemma_div_is_ordered(d as int, (NANOS_PER_SEC * 1000) as int, d as int);
        vstd::arithmetic::div_mod::lemma_div_by_self(d as int);
    }
    (NANOS_PER_SEC * 1000) / d
}

/// Instruction period in nanoseconds at a speed of `thousandths` of
/// normal: a thousandth of a second at normal speed.
pub fn cpu_period(thousandths: u32) -> (r: u64)
    requires
        thousandths > 0,
    ensures
        r == (NANOS_PER_SEC * 1000) / (CPU_HZ * thousandths),
{
    (NANOS_PER_SEC * 1000) / (CPU_HZ * thousandths as u64)
}

} // verus!
