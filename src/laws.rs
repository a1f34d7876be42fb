use vstd::prelude::*;
use crate::clock::{ordered_from, poll_spec, run_polls, ClockView};
use crate::disasm::{decode, x_of, y_of, InstructionType};
use crate::quirks::QuirksConfig;
use crate::model::{
    draw_flips, emulate_spec, exec_spec, fetch, next_pc, retire, set_x_flag, Chip8View, MachineView,
};

verus! {

/// `8XY4` leaves in VF 1 exactly when `VX + VY` exceeds 255, and, unless
/// `X` is VF itself, leaves `(VX + VY) mod 256` in `VX`.
pub proof fn law_add_reg(m: MachineView, q: QuirksConfig, inst: u16, rnd: u8)
    requires
        m.wf(),
        decode(inst) == InstructionType::AddReg,
    ensures
        exec_spec(m, q, inst, rnd) is Ok,
        ({
            let a = m.reg[x_of(inst) as int];
            let b = m.reg[y_of(inst) as int];
            let t = exec_spec(m, q, inst, rnd)->Ok_0;
            &&& (t.reg[15] == 1) == (a + b > 255)
            &&& (t.reg[15] == 0) == (a + b <= 255)
            &&& t.pc == next_pc(m)
            &&& x_of(inst) != 15 ==> t.reg[x_of(inst) as int] == (a + b) % 256
        }),
{
}

/// `8XY5` leaves in VF 0 exactly when `VX < VY` (a borrow) and 1
/// otherwise, and, unless `X` is VF itself, leaves `(VX - VY) mod 256` in
/// `VX`.
pub proof fn law_sub_reg(m: MachineView, q: QuirksConfig, inst: u16, rnd: u8)
    requires
        m.wf(),
        decode(inst) == InstructionType::SubReg,
    ensures
        exec_spec(m, q, inst, rnd) is Ok,
        ({
            let a = m.reg[x_of(inst) as int];
            let b = m.reg[y_of(inst) as int];
            let t = exec_spec(m, q, inst, rnd)->Ok_0;
            &&& (t.reg[15] == 0) == (a < b)
            &&& (t.reg[15] == 1) == (a >= b)
            &&& t.pc == next_pc(m)
            &&& x_of(inst) != 15 ==> t.reg[x_of(inst) as int] == (a - b) % 256
        }),
{
}

/// `8XY6` shifts right by one: with the `shifting` quirk it shifts `VX` in
/// place, and a different `VY` (other than VF) changes nothing but `VY`
/// itself; without the quirk `VY` is shifted into `VX`. VF receives the
/// bit shifted out, written after the result.
pub proof fn law_shift_right(m: MachineView, q: QuirksConfig, inst: u16, rnd: u8)
    requires
        m.wf(),
        decode(inst) == InstructionType::RshReg,
    ensures
        ({
            let x = x_of(inst) as int;
            let y = y_of(inst) as int;
            let src = if q.shifting {
                m.reg[x]
            } else {
                m.reg[y]
            };
            &&& exec_spec(m, q, inst, rnd) == Ok::<MachineView, crate::error::Chip8Error>(
                set_x_flag(m, x, src / 2, src % 2),
            )
            &&& q.shifting ==> forall|v: u8|
                #![trigger m.reg.update(y, v)]
                y != x && y != 15 ==> exec_spec(MachineView { reg: m.reg.update(y, v), ..m }, q, inst, rnd)
                    == Ok::<MachineView, crate::error::Chip8Error>(
                    MachineView {
                        reg: exec_spec(m, q, inst, rnd)->Ok_0.reg.update(y, v),
                        ..exec_spec(m, q, inst, rnd)->Ok_0
                    },
                )
        }),
{
    let x = x_of(inst) as int;
    let y = y_of(inst) as int;
    if q.shifting {
        assert forall|v: u8| y != x && y != 15 implies exec_spec(
            MachineView { reg: #[trigger] m.reg.update(y, v), ..m },
            q,
            inst,
            rnd,
        ) == Ok::<MachineView, crate::error::Chip8Error>(
            MachineView {
                reg: exec_spec(m, q, inst, rnd)->Ok_0.reg.update(y, v),
                ..exec_spec(m, q, inst, rnd)->Ok_0
            },
        ) by {
            let a = m.reg[x];
            let r1 = m.reg.update(y, v).update(x, a / 2).update(15, a % 2);
            let r2 = m.reg.update(x, a / 2).update(15, a % 2).update(y, v);
            assert(r1 =~= r2);
        }
    }
}

/// Drawing the same sprite at the same place twice gives back the screen
/// from before, and the second draw reports a collision wherever the
/// first lit a pixel. The sprite's place must not depend on VF, which the
/// first draw overwrites.
#[verifier::rlimit(30)]
pub proof fn law_draw_twice(m: MachineView, q: QuirksConfig, inst: u16, rnd: u8)
    requires
        m.wf(),
        decode(inst) == InstructionType::Draw,
        x_of(inst) != 15,
        y_of(inst) != 15,
    ensures
        exec_spec(m, q, inst, rnd) is Ok,
        exec_spec(exec_spec(m, q, inst, rnd)->Ok_0, q, inst, rnd) is Ok,
        ({
            let once = exec_spec(m, q, inst, rnd)->Ok_0;
            let twice = exec_spec(once, q, inst, rnd)->Ok_0;
            &&& twice.screen == m.screen
            &&& (exists|p: int| 0 <= p < 2048 && !m.screen[p] && #[trigger] once.screen[p])
                ==> twice.reg[15] == 1
        }),
{
    let once = exec_spec(m, q, inst, rnd)->Ok_0;
    let twice = exec_spec(once, q, inst, rnd)->Ok_0;
    assert(once.reg[x_of(inst) as int] == m.reg[x_of(inst) as int]);
    assert(once.reg[y_of(inst) as int] == m.reg[y_of(inst) as int]);
    assert forall|p: int| 0 <= p < 2048 implies draw_flips(once, q.clipping, inst, p) == draw_flips(
        m,
        q.clipping,
        inst,
        p,
    ) by {}
    assert(twice.screen =~= m.screen);
    if exists|p: int| 0 <= p < 2048 && !m.screen[p] && #[trigger] once.screen[p] {
        let p = choose|p: int| 0 <= p < 2048 && !m.screen[p] && #[trigger] once.screen[p];
        assert(draw_flips(once, q.clipping, inst, p));
    }
}

/// A step that retires an instruction stops on a breakpoint only after
/// that instruction: the instruction at the current address runs even when
/// a breakpoint watches it, and when the run stops, the program counter is
/// on a breakpoint or a requested step count has run out. Landing on a
/// breakpoint always stops.
#[verifier::rlimit(30)]
pub proof fn law_breakpoint_after_retire(s: Chip8View, rnd: u8)
    requires
        s.wf(),
        !s.machine.stop,
        !s.machine.keypress_halt,
    ensures
        ({
            let (t, r) = emulate_spec(s, rnd);
            r is Ok ==> {
                &&& exec_spec(s.machine, s.quirks, fetch(s.machine), rnd) is Ok
                &&& t.machine == retire(
                    exec_spec(s.machine, s.quirks, fetch(s.machine), rnd)->Ok_0,
                    s.breakpoints,
                )
                &&& t.breakpoints.contains(t.machine.pc) ==> t.machine.stop
                    && t.machine.steps_to_stop == 0
                &&& t.machine.stop ==> t.breakpoints.contains(t.machine.pc)
                    || s.machine.steps_to_stop == 1
            }
        }),
{
}

/// The engine after one call of the per-step entry point for each of
/// `rnds`, each giving the random byte of its step.
pub open spec fn run_steps(s: Chip8View, rnds: Seq<u8>) -> Chip8View
    decreases rnds.len(),
{
    if rnds.len() == 0 {
        s
    } else {
        emulate_spec(run_steps(s, rnds.drop_last()), rnds.last()).0
    }
}

/// `s` with its machine state put back to `snapshot`, as `restore` does.
pub open spec fn restored(s: Chip8View, snapshot: MachineView) -> Chip8View {
    Chip8View { machine: snapshot, ..s }
}

/// Steps change only the machine state.
pub proof fn lemma_steps_keep_settings(s: Chip8View, rnds: Seq<u8>)
    ensures
        run_steps(s, rnds).breakpoints == s.breakpoints,
        run_steps(s, rnds).time_multiplier == s.time_multiplier,
        run_steps(s, rnds).quirks == s.quirks,
    decreases rnds.len(),
{
    if rnds.len() > 0 {
        lemma_steps_keep_settings(s, rnds.drop_last());
    }
}

/// Restoring a snapshot after any number of steps gives back exactly the
/// engine from when the snapshot was taken; restoring it at once changes
/// nothing.
pub proof fn law_snapshot_restore(s: Chip8View, rnds: Seq<u8>)
    ensures
        restored(run_steps(s, rnds), s.machine) == s,
        restored(s, s.machine) == s,
{
    lemma_steps_keep_settings(s, rnds);
}

/// Polling never loses time: after any polls, the ticks times the period
/// plus the carried excess account exactly for the time from the start to
/// the last tick.
pub proof fn law_clock_conserves_time(c: ClockView, times: Seq<u64>)
    requires
        ordered_from(c.last, times),
        times.len() > 0 ==> c.excess + (times.last() - c.last) <= u64::MAX,
    ensures
        ({
            let (e, ticks) = run_polls(c, times);
            &&& ticks * c.period + e.excess == c.excess + (e.last - c.last)
            &&& c.last <= e.last
            &&& times.len() > 0 ==> e.last <= times.last()
            &&& e.period == c.period
        }),
    decreases times.len(),
{
    if times.len() > 0 {
        let init = times.drop_last();
        assert(ordered_from(c.last, init));
        if init.len() > 0 {
            assert(init.last() <= times.last());
        }
        law_clock_conserves_time(c, init);
        let (mid, ticks) = run_polls(c, init);
        assert(mid.last <= times.last()) by {
            if init.len() > 0 {
                assert(times[init.len() - 1] <= times[init.len() as int]);
            }
        }
        assert(ticks * c.period + mid.excess + (times.last() - mid.last) == c.excess + (
        times.last() - c.last));
        assert((ticks + 1) * c.period == ticks * c.period + c.period) by (nonlinear_arith);
    }
}

/// Polled at least once per period from a start with nothing carried, the
/// clock has ticked exactly `floor(elapsed / period)` times at every poll,
/// so its count never drifts from the elapsed time by a tick or more.
pub proof fn law_clock_no_drift(c: ClockView, times: Seq<u64>)
    requires
        c.excess == 0,
        0 < c.period <= u64::MAX / 2,
        times.len() > 0,
        ordered_from(c.last, times),
        forall|i: int|
            0 <= i < times.len() ==> #[trigger] times[i] - (if i == 0 {
                c.last
            } else {
                times[i - 1]
            }) <= c.period,
    ensures
        ({
            let (e, ticks) = run_polls(c, times);
            &&& ticks == (times.last() - c.last) as nat / (c.period as nat)
            &&& ticks <= (times.last() - c.last) as nat / (c.period as nat) < ticks + 1
        }),
{
    lemma_clock_bounded(c, times);
    let (e, ticks) = run_polls(c, times);
    let elapsed = (times.last() - c.last) as int;
    assert(elapsed == ticks * c.period + (e.excess + (times.last() - e.last)));
    vstd::arithmetic::div_mod::lemma_fundamental_div_mod_converse(
        elapsed,
        c.period as int,
        ticks as int,
        (e.excess + (times.last() - e.last)) as int,
    );
}

proof fn lemma_clock_bounded(c: ClockView, times: Seq<u64>)
    requires
        c.excess == 0,
        0 < c.period <= u64::MAX / 2,
        times.len() > 0,
        ordered_from(c.last, times),
        forall|i: int|
            0 <= i < times.len() ==> #[trigger] times[i] - (if i == 0 {
                c.last
            } else {
                times[i - 1]
            }) <= c.period,
    ensures
        ({
            let (e, ticks) = run_polls(c, times);
            &&& ticks * c.period + e.excess == e.last - c.last
            &&& c.last <= e.last <= times.last()
            &&& e.excess + (times.last() - e.last) < c.period
            &&& e.period == c.period
        }),
    decreases times.len(),
{
    let init = times.drop_last();
    let now = times.last();
    let prev = if init.len() == 0 {
        c.last
    } else {
        init.last()
    };
    assert(now - prev <= c.period) by {
        assert(times[times.len() - 1] - (if times.len() - 1 == 0 {
            c.last
        } else {
            times[times.len() - 2]
        }) <= c.period);
    }
    assert(prev <= now) by {
        assert((if times.len() - 1 == 0 {
            c.last
        } else {
            times[times.len() - 2]
        }) <= times[times.len() - 1]);
    }
    let (mid, ticks) = if init.len() == 0 {
        (c, 0nat)
    } else {
        assert(ordered_from(c.last, init));
        assert forall|i: int| 0 <= i < init.len() implies #[trigger] init[i] - (if i == 0 {
            c.last
        } else {
            init[i - 1]
        }) <= c.period by {
            assert(times[i] - (if i == 0 {
                c.last
            } else {
                times[i - 1]
            }) <= c.period);
        }
        lemma_clock_bounded(c, init);
        run_polls(c, init)
    };
    assert(run_polls(c, init) == (mid, ticks));
    assert((ticks + 1) * c.period == ticks * c.period + c.period) by (nonlinear_arith);
}

} // verus!
