//! The engine as a mathematical value, and what each operation does to it.

use vstd::prelude::*;
use crate::disasm::{decode, instruction_text, n_of, nn_of, nnn_of, x_of, y_of, InstructionType};
use crate::error::Chip8Error;
use crate::memory::MEMORY_SIZE;
use crate::quirks::QuirksConfig;
use crate::stack::STACK_DEPTH;
use crate::text::{dec_text, hex_text};

verus! {

/// Screen width in pixels.
pub const SCREEN_WIDTH: usize = 64;

/// Screen height in pixels.
pub const SCREEN_HEIGHT: usize = 32;

/// Number of pixels; pixel `(x, y)` is at index `y * 64 + x`.
pub const SCREEN_SIZE: usize = 2048;

/// Time multiplier of normal speed, in thousandths.
pub const NORMAL_SPEED: u32 = 1000;

/// The machine state proper, as a mathematical value.
pub struct MachineView {
    pub pc: u16,
    pub reg: Seq<u8>,
    pub keys: Seq<bool>,
    pub addr: u16,
    pub stack: Seq<u16>,
    pub memory: Seq<u8>,
    pub delay_timer: u8,
    pub sound_timer: u8,
    pub screen: Seq<bool>,
    pub keypress_halt: bool,
    pub keypress_reg: u8,
    pub stop: bool,
    pub steps_to_stop: u16,
}

impl MachineView {
    /// Sizes are fixed, addresses lie in the address space, and a pending
    /// step count implies running.
    pub open spec fn wf(self) -> bool {
        &&& self.reg.len() == 16
        &&& self.keys.len() == 16
        &&& self.memory.len() == MEMORY_SIZE
        &&& self.screen.len() == SCREEN_SIZE
        &&& self.stack.len() <= STACK_DEPTH
        &&& forall|i: int| 0 <= i < self.stack.len() ==> #[trigger] self.stack[i] < 4096
        &&& self.pc < 4096
        &&& self.addr < 4096
        &&& self.keypress_reg < 16
        &&& (self.steps_to_stop > 0 ==> !self.stop)
    }
}

/// The whole engine as a mathematical value.
pub struct Chip8View {
    pub machine: MachineView,
    pub breakpoints: Seq<u16>,
    pub time_multiplier: u32,
    pub quirks: QuirksConfig,
}

impl Chip8View {
    /// The machine is well formed, breakpoints are distinct and the speed
    /// is positive.
    pub open spec fn wf(self) -> bool {
        &&& self.machine.wf()
        &&& self.breakpoints.no_duplicates()
        &&& self.time_multiplier > 0
    }
}

/// Address `a` wrapped into the address space.
pub open spec fn wrap(a: int) -> u16 {
    (a % 4096) as u16
}

/// The address of the next instruction word.
pub open spec fn next_pc(m: MachineView) -> u16 {
    wrap(m.pc + 2)
}

/// The address after skipping the next instruction word.
pub open spec fn skip_pc(m: MachineView) -> u16 {
    wrap(m.pc + 4)
}

/// `m` moved on to the next instruction.
pub open spec fn advance(m: MachineView) -> MachineView {
    MachineView { pc: next_pc(m), ..m }
}

/// `m` moved on to the next instruction, or past it when `cond` holds.
pub open spec fn skip_if(m: MachineView, cond: bool) -> MachineView {
    MachineView { pc: if cond { skip_pc(m) } else { next_pc(m) }, ..m }
}

/// `m` with register `x` set to `v`, moved on to the next instruction.
pub open spec fn set_x(m: MachineView, x: int, v: u8) -> MachineView {
    MachineView { reg: m.reg.update(x, v), pc: next_pc(m), ..m }
}

/// `m` with register `x` set to `v` and then VF to `f`, moved on.
pub open spec fn set_x_flag(m: MachineView, x: int, v: u8, f: u8) -> MachineView {
    MachineView { reg: m.reg.update(x, v).update(15, f), pc: next_pc(m), ..m }
}

/// `data` written from `start`, wrapping at the end of the address space.
pub open spec fn wrap_write(mem: Seq<u8>, start: int, data: Seq<u8>) -> Seq<u8> {
    Seq::new(
        mem.len(),
        |a: int|
            {
                let d = (a - start + 4096) % 4096;
                if d < data.len() {
                    data[d]
                } else {
                    mem[a]
                }
            },
    )
}

/// Bit `j` of a sprite row, counted from the most significant bit.
pub open spec fn sprite_bit(byte: u8, j: int) -> bool {
    (byte >> ((7 - j) as u8)) & 1 == 1
}

/// Row of the sprite that lands on pixel `p`, relative to the origin row.
pub open spec fn sprite_row(clip: bool, oy: int, p: int) -> int {
    if clip {
        p / 64 - oy
    } else {
        (p / 64 - oy + 32) % 32
    }
}

/// Column of the sprite that lands on pixel `p`, relative to the origin.
pub open spec fn sprite_col(clip: bool, ox: int, p: int) -> int {
    if clip {
        p % 64 - ox
    } else {
        (p % 64 - ox + 64) % 64
    }
}

/// Whether drawing instruction `inst` in `m` flips pixel `p`.
pub open spec fn draw_flips(m: MachineView, clip: bool, inst: u16, p: int) -> bool {
    let ox = m.reg[x_of(inst) as int] % 64;
    let oy = m.reg[y_of(inst) as int] % 32;
    let i = sprite_row(clip, oy as int, p);
    let j = sprite_col(clip, ox as int, p);
    &&& 0 <= i < n_of(inst)
    &&& 0 <= j < 8
    &&& sprite_bit(m.memory[wrap(m.addr + i) as int], j)
}

/// The screen after drawing: each flipped pixel is inverted.
pub open spec fn drawn_screen(m: MachineView, clip: bool, inst: u16) -> Seq<bool> {
    Seq::new(SCREEN_SIZE as nat, |p: int| m.screen[p] != draw_flips(m, clip, inst, p))
}

/// Whether drawing turns some lit pixel off.
pub open spec fn draw_collides(m: MachineView, clip: bool, inst: u16) -> bool {
    exists|p: int| 0 <= p < SCREEN_SIZE && m.screen[p] && #[trigger] draw_flips(m, clip, inst, p)
}

/// The effect of the draw instruction `DXYN`.
pub open spec fn draw_spec(m: MachineView, clip: bool, inst: u16) -> MachineView {
    MachineView {
        screen: drawn_screen(m, clip, inst),
        reg: m.reg.update(15, if draw_collides(m, clip, inst) { 1u8 } else { 0u8 }),
        pc: next_pc(m),
        ..m
    }
}

/// `v` as three decimal digits, hundreds first.
pub open spec fn bcd(v: u8) -> Seq<u8> {
    seq![v / 100, (v / 10) % 10, v % 10]
}

/// The index register after moving `count` bytes, under the memory quirk.
pub open spec fn index_after(q: QuirksConfig, addr: u16, count: int) -> u16 {
    if q.memory {
        wrap(addr + count)
    } else {
        addr
    }
}

/// The effect of executing instruction word `inst` on `m` under quirks
/// `q`; `rnd` is the random byte that `CXNN` uses.
pub open spec fn exec_spec(m: MachineView, q: QuirksConfig, inst: u16, rnd: u8) -> Result<
    MachineView,
    Chip8Error,
> {
    let x = x_of(inst) as int;
    let y = y_of(inst) as int;
    let vx = m.reg[x];
    let vy = m.reg[y];
    let nn = nn_of(inst) as u8;
    let nnn = nnn_of(inst);
    match decode(inst) {
        InstructionType::CallRca1802CodeRoutine => Ok(advance(m)),
        InstructionType::ClearDisplay => Ok(
            MachineView {
                screen: Seq::new(SCREEN_SIZE as nat, |p: int| false),
                pc: next_pc(m),
                ..m
            },
        ),
        InstructionType::ReturnFromSubroutine => if m.stack.len() == 0 {
            Err(Chip8Error::StackUnderflow)
        } else {
            Ok(MachineView { pc: m.stack.last(), stack: m.stack.drop_last(), ..m })
        },
        InstructionType::Jmp => Ok(MachineView { pc: nnn, ..m }),
        InstructionType::Call => if m.stack.len() >= STACK_DEPTH {
            Err(Chip8Error::StackOverflow)
        } else {
            Ok(MachineView { pc: nnn, stack: m.stack.push(next_pc(m)), ..m })
        },
        InstructionType::SkipEq => Ok(skip_if(m, vx == nn)),
        InstructionType::SkipNeq => Ok(skip_if(m, vx != nn)),
        InstructionType::SkipRegsEq => Ok(skip_if(m, vx == vy)),
        InstructionType::SkipRegsNeq => Ok(skip_if(m, vx != vy)),
        InstructionType::SetVal => Ok(set_x(m, x, nn)),
        InstructionType::AddVal => Ok(set_x(m, x, ((vx + nn) % 256) as u8)),
        InstructionType::SetReg => Ok(set_x(m, x, vy)),
        InstructionType::OrReg => Ok(
            if q.vf_reset {
                set_x_flag(m, x, vx | vy, 0)
            } else {
                set_x(m, x, vx | vy)
            },
        ),
        InstructionType::AndReg => Ok(
            if q.vf_reset {
                set_x_flag(m, x, vx & vy, 0)
            } else {
                set_x(m, x, vx & vy)
            },
        ),
        InstructionType::XorReg => Ok(
            if q.vf_reset {
                set_x_flag(m, x, vx ^ vy, 0)
            } else {
                set_x(m, x, vx ^ vy)
            },
        ),
        InstructionType::AddReg => Ok(
            set_x_flag(
                m,
                x,
                ((vx + vy) % 256) as u8,
                if vx + vy > 255 {
                    1
                } else {
                    0
                },
            ),
        ),
        InstructionType::SubReg => Ok(
            set_x_flag(
                m,
                x,
                ((vx - vy + 256) % 256) as u8,
                if vx < vy {
                    0
                } else {
                    1
                },
            ),
        ),
        InstructionType::ReverseSubReg => Ok(
            set_x_flag(
                m,
                x,
                ((vy - vx + 256) % 256) as u8,
                if vy < vx {
                    0
                } else {
                    1
                },
            ),
        ),
        InstructionType::RshReg => {
            let v = if q.shifting {
                vx
            } else {
                vy
            };
            Ok(set_x_flag(m, x, v / 2, v % 2))
        },
        InstructionType::LshReg => {
            let v = if q.shifting {
                vx
            } else {
                vy
            };
            Ok(set_x_flag(m, x, ((v * 2) % 256) as u8, v / 128))
        },
        InstructionType::SetAddr => Ok(MachineView { addr: nnn, pc: next_pc(m), ..m }),
        InstructionType::JmpPlus => Ok(
            MachineView {
                pc: wrap(
                    nnn + if q.jumping {
                        vx
                    } else {
                        m.reg[0]
                    },
                ),
                ..m
            },
        ),
        InstructionType::Rand => Ok(set_x(m, x, rnd & nn)),
        InstructionType::Draw => Ok(draw_spec(m, q.clipping, inst)),
        InstructionType::SkipIfPressed => Ok(skip_if(m, m.keys[(vx % 16) as int])),
        InstructionType::SkipIfNotPressed => Ok(skip_if(m, !m.keys[(vx % 16) as int])),
        InstructionType::GetDelayTimer => Ok(set_x(m, x, m.delay_timer)),
        InstructionType::GetKeypress => Ok(
            MachineView { keypress_halt: true, keypress_reg: x as u8, pc: next_pc(m), ..m },
        ),
        InstructionType::SetDelayTimer => Ok(MachineView { delay_timer: vx, pc: next_pc(m), ..m }),
        InstructionType::SetSoundTimer => Ok(MachineView { sound_timer: vx, pc: next_pc(m), ..m }),
        InstructionType::AddToAddr => Ok(MachineView { addr: wrap(m.addr + vx), pc: next_pc(m), ..m }),
        InstructionType::SetAddrToSpriteAddr => Ok(advance(m)),
        InstructionType::StoreBcd => Ok(
            MachineView { memory: wrap_write(m.memory, m.addr as int, bcd(vx)), pc: next_pc(m), ..m },
        ),
        InstructionType::RegDump => Ok(
            MachineView {
                memory: wrap_write(m.memory, m.addr as int, m.reg.subrange(0, x + 1)),
                addr: index_after(q, m.addr, x + 1),
                pc: next_pc(m),
                ..m
            },
        ),
        InstructionType::RegLoad => Ok(
            MachineView {
                reg: Seq::new(
                    16,
                    |i: int|
                        if i <= x {
                            m.memory[wrap(m.addr + i) as int]
                        } else {
                            m.reg[i]
                        },
                ),
                addr: index_after(q, m.addr, x + 1),
                pc: next_pc(m),
                ..m
            },
        ),
        InstructionType::BadInstruction => Err(Chip8Error::BadInstruction(inst)),
    }
}

/// `new` is `old` with its machine part replaced by the outcome of
/// executing `inst`. On a stack error the machine is left as it was but
/// stopped, with no pending step count; on a bad instruction nothing
/// changes.
pub open spec fn executes(old: Chip8View, new: Chip8View, inst: u16, rnd: u8) -> bool {
    match exec_spec(old.machine, old.quirks, inst, rnd) {
        Ok(m) => new == Chip8View { machine: m, ..old },
        Err(Chip8Error::BadInstruction(_)) => new == old,
        Err(_) => new == Chip8View { machine: halted(old.machine), ..old },
    }
}

/// The error part of an outcome.
pub open spec fn outcome(r: Result<MachineView, Chip8Error>) -> Result<(), Chip8Error> {
    match r {
        Ok(_) => Ok(()),
        Err(e) => Err(e),
    }
}

/// The instruction word at the program counter, high byte first.
pub open spec fn fetch(m: MachineView) -> u16 {
    (m.memory[m.pc as int] * 256 + m.memory[wrap(m.pc + 1) as int]) as u16
}

/// `m` forced into the stopped state.
pub open spec fn halted(m: MachineView) -> MachineView {
    MachineView { stop: true, steps_to_stop: 0, ..m }
}

/// Run-control bookkeeping after an instruction retires: count down a
/// pending step request, then stop on a breakpoint.
pub open spec fn retire(m: MachineView, breakpoints: Seq<u16>) -> MachineView {
    let counted = if m.steps_to_stop > 0 {
        MachineView {
            steps_to_stop: (m.steps_to_stop - 1) as u16,
            stop: m.steps_to_stop == 1,
            ..m
        }
    } else {
        m
    };
    if breakpoints.contains(counted.pc) {
        halted(counted)
    } else {
        counted
    }
}

/// One call of the per-step entry point: nothing while stopped or waiting
/// for a key; otherwise the next instruction executes and retires. A stack
/// error stops the machine; a bad instruction leaves it as it was.
pub open spec fn emulate_spec(s: Chip8View, rnd: u8) -> (Chip8View, Result<(), Chip8Error>) {
    let m = s.machine;
    if m.stop || m.keypress_halt {
        (s, Ok(()))
    } else {
        match exec_spec(m, s.quirks, fetch(m), rnd) {
            Ok(t) => (Chip8View { machine: retire(t, s.breakpoints), ..s }, Ok(())),
            Err(Chip8Error::BadInstruction(w)) => (s, Err(Chip8Error::BadInstruction(w))),
            Err(e) => (Chip8View { machine: halted(m), ..s }, Err(e)),
        }
    }
}

/// Index of the first key at or after `k` that is down in `new` and was
/// up in `old`; 16 when there is none.
pub open spec fn first_fresh(old: Seq<bool>, new: Seq<bool>, k: int) -> int
    decreases 16 - k,
{
    if k >= 16 {
        16
    } else if new[k] && !old[k] {
        k
    } else {
        first_fresh(old, new, k + 1)
    }
}

/// The machine after the host reports key state `keys`: a fresh press
/// while waiting for a key stores the lowest such key in the target
/// register and ends the wait.
pub open spec fn keys_spec(m: MachineView, keys: Seq<bool>) -> MachineView {
    let k = first_fresh(m.keys, keys, 0);
    if m.keypress_halt && k < 16 {
        MachineView {
            keys,
            reg: m.reg.update(m.keypress_reg as int, k as u8),
            keypress_halt: false,
            ..m
        }
    } else {
        MachineView { keys, ..m }
    }
}

/// The machine after one 60 Hz timer tick.
pub open spec fn tick_spec(m: MachineView) -> MachineView {
    MachineView {
        delay_timer: if m.delay_timer > 0 {
            (m.delay_timer - 1) as u8
        } else {
            0
        },
        sound_timer: if m.sound_timer > 0 {
            (m.sound_timer - 1) as u8
        } else {
            0
        },
        ..m
    }
}

/// A freshly created machine: zero registers, keys up, empty stack,
/// clear screen, running, with `memory` and the program counter at `pc`.
pub open spec fn initial_machine(memory: Seq<u8>, pc: u16) -> MachineView {
    MachineView {
        pc,
        reg: Seq::new(16, |i: int| 0u8),
        keys: Seq::new(16, |i: int| false),
        addr: 0,
        stack: Seq::empty(),
        memory,
        delay_timer: 0,
        sound_timer: 0,
        screen: Seq::new(SCREEN_SIZE as nat, |p: int| false),
        keypress_halt: false,
        keypress_reg: 0,
        stop: false,
        steps_to_stop: 0,
    }
}

/// A freshly created engine around `machine`: no breakpoints, normal speed.
pub open spec fn initial_state(machine: MachineView, quirks: QuirksConfig) -> Chip8View {
    Chip8View { machine, breakpoints: Seq::empty(), time_multiplier: NORMAL_SPEED, quirks }
}

/// Memory holding only zeros.
pub open spec fn zero_memory() -> Seq<u8> {
    Seq::new(MEMORY_SIZE as nat, |a: int| 0u8)
}

/// The line for register `VI` in the state listing: its number in
/// hexadecimal, its value in decimal and in hexadecimal, and a separator
/// that pairs registers two to a line.
pub open spec fn reg_line(i: int, v: u8) -> Seq<char> {
    "V"@ + hex_text(i as nat, 0) + ": "@ + dec_text(v as nat, 3) + " 0x"@ + hex_text(v as nat, 2) + if i
        % 2 == 0 {
        "  |  "@
    } else {
        "\n"@
    }
}

/// The listing lines of the first `k` registers.
pub open spec fn regs_text(reg: Seq<u8>, k: int) -> Seq<char>
    decreases k,
{
    if k <= 0 {
        Seq::empty()
    } else {
        regs_text(reg, k - 1) + reg_line(k - 1, reg[k - 1])
    }
}

/// The state listing: program counter, registers, index register, timers.
pub open spec fn state_text(m: MachineView) -> Seq<char> {
    "pc: "@ + dec_text(m.pc as nat, 0) + "\n"@ + regs_text(m.reg, 16) + "I: 0x"@ + hex_text(
        m.addr as nat,
        4,
    ) + "\n"@ + "delay_timer: "@ + dec_text(m.delay_timer as nat, 3) + "\n"@ + "sound_timer: "@
        + dec_text(m.sound_timer as nat, 3) + "\n"@
}

/// Number of lines in the disassembly listing.
pub const LISTING_LINES: usize = 13;

/// The instruction word stored at address `a`, high byte first.
pub open spec fn word_at(mem: Seq<u8>, a: int) -> u16 {
    (mem[a] * 256 + mem[a + 1]) as u16
}

/// Line `k` of the disassembly listing, for the word at `pc + 2k - 6`: an
/// empty line where no whole word lies there, else an arrow on the
/// current line, the address, the word and its listing text.
pub open spec fn listing_line(m: MachineView, k: int) -> Seq<char> {
    let a = m.pc + 2 * k - 6;
    if a < 0 || a >= MEMORY_SIZE - 1 {
        "\n"@
    } else {
        (if k == 3 {
            "--->  "@
        } else {
            Seq::empty()
        }) + hex_text(a as nat, 4) + ":\t"@ + hex_text(word_at(m.memory, a) as nat, 4) + " "@
            + instruction_text(word_at(m.memory, a)) + "\n"@
    }
}

/// The first `k` lines of the disassembly listing.
pub open spec fn listing_text(m: MachineView, k: int) -> Seq<char>
    decreases k,
{
    if k <= 0 {
        Seq::empty()
    } else {
        listing_text(m, k - 1) + listing_line(m, k - 1)
    }
}

} // verus!
