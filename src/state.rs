//! The execution engine: machine state, instruction set, run control,
//! key input, timers, snapshots and debugger listings.

use vstd::prelude::*;
use vstd::string::*;
use crate::disasm::{decode, disassemble, find_instruction_func, n_of, x_of, y_of, InstructionType};
use crate::error::Chip8Error;
use crate::memory::{overwrite, Memory, MEMORY_SIZE};
use crate::model::{
    Chip8View,
    LISTING_LINES,
    MachineView,
    NORMAL_SPEED,
    SCREEN_HEIGHT,
    SCREEN_SIZE,
    SCREEN_WIDTH,
    bcd,
    draw_collides,
    draw_flips,
    drawn_screen,
    emulate_spec,
    exec_spec,
    executes,
    fetch,
    first_fresh,
    halted,
    initial_machine,
    initial_state,
    keys_spec,
    listing_line,
    listing_text,
    next_pc,
    outcome,
    reg_line,
    regs_text,
    set_x,
    set_x_flag,
    skip_pc,
    sprite_col,
    sprite_row,
    state_text,
    tick_spec,
    wrap,
    wrap_write,
    zero_memory,
};
use crate::quirks::QuirksConfig;
use crate::stack::Stack;
use crate::text::{dec_string, hex_string};

verus! {

/// A watched program-counter value.
#[derive(Debug, Clone, Copy, PartialEq, Eq, Structural)]
pub struct Breakpoint {
    pub addr: u16,
}

impl Breakpoint {
    /// A breakpoint on `addr`.
    pub fn new(addr: u16) -> (r: Breakpoint)
        ensures
            r.addr == addr,
    {
        Breakpoint { addr }
    }
}

/// The machine state proper: everything that a snapshot saves.
#[derive(Clone, Copy)]
pub struct Machine {
    pc: u16,
    reg: [u8; 16],
    key_pressed: [bool; 16],
    addr: u16,
    stack: Stack,
    memory: Memory,
    delay_timer: u8,
    sound_timer: u8,
    screen: [bool; 2048],
    keypress_halt: bool,
    keypress_reg: u8,
    stop: bool,
    steps_to_stop: u16,
}

impl View for Machine {
    type V = MachineView;

    closed spec fn view(&self) -> MachineView {
        MachineView {
            pc: self.pc,
            reg: self.reg@,
            keys: self.key_pressed@,
            addr: self.addr,
            stack: self.stack@,
            memory: self.memory@,
            delay_timer: self.delay_timer,
            sound_timer: self.sound_timer,
            screen: self.screen@,
            keypress_halt: self.keypress_halt,
            keypress_reg: self.keypress_reg,
            stop: self.stop,
            steps_to_stop: self.steps_to_stop,
        }
    }
}

impl Machine {
    /// The view is well formed and the stack is internally consistent.
    pub closed spec fn wf(&self) -> bool {
        self@.wf() && self.stack.wf()
    }

    /// A well-formed machine has a well-formed view.
    pub proof fn lemma_view_wf(&self)
        requires
            self.wf(),
        ensures
            self@.wf(),
    {
    }
}

/// A CHIP-8 engine: the machine, its breakpoints, its speed and its quirks.
pub struct Chip8State {
    machine: Machine,
    breakpoints: Vec<Breakpoint>,
    time_multiplier: u32,
    quirks: QuirksConfig,
}

/// The addresses of a list of breakpoints.
pub open spec fn bp_addrs(b: Seq<Breakpoint>) -> Seq<u16> {
    b.map_values(|bp: Breakpoint| bp.addr)
}

impl View for Chip8State {
    type V = Chip8View;

    closed spec fn view(&self) -> Chip8View {
        Chip8View {
            machine: self.machine@,
            breakpoints: bp_addrs(self.breakpoints@),
            time_multiplier: self.time_multiplier,
            quirks: self.quirks,
        }
    }
}

impl Default for Chip8State {
    /// An engine with zeroed memory and the COSMAC VIP quirks.
    fn default() -> (r: Chip8State)
        ensures
            r.wf(),
            r@ == initial_state(
                initial_machine(zero_memory(), 0),
                QuirksConfig {
                    vf_reset: true,
                    memory: true,
                    display_wait: true,
                    clipping: true,
                    shifting: false,
                    jumping: false,
                },
            ),
    {
        Chip8State::new(QuirksConfig::get_chip8())
    }
}

impl Chip8State {
    /// The engine's invariant.
    pub closed spec fn wf(&self) -> bool {
        self@.wf() && self.machine.wf()
    }

    /// A well-formed engine has a well-formed view: sixteen registers and
    /// keys, 4096 bytes of memory, addresses inside them, at most sixteen
    /// saved return addresses, distinct breakpoints and a positive speed.
    pub proof fn lemma_view_wf(&self)
        requires
            self.wf(),
        ensures
            self@.wf(),
    {
    }

    fn with_memory(memory: Memory, pc: u16, quirks: QuirksConfig) -> (r: Chip8State)
        requires
            pc < 4096,
        ensures
            r.wf(),
            r@ == initial_state(initial_machine(memory@, pc), quirks),
    {
        let machine = Machine {
            pc,
            reg: [0u8; 16],
            key_pressed: [false; 16],
            addr: 0,
            stack: Stack::new(),
            memory,
            delay_timer: 0,
            sound_timer: 0,
            screen: [false; 2048],
            keypress_halt: false,
            keypress_reg: 0,
            stop: false,
            steps_to_stop: 0,
        };
        let r = Chip8State { breakpoints: Vec::new(), time_multiplier: NORMAL_SPEED, machine, quirks };
        assert(r@.machine.reg =~= Seq::new(16, |i: int| 0u8));
        assert(r@.machine.keys =~= Seq::new(16, |i: int| false));
        assert(r@.machine.screen =~= Seq::new(SCREEN_SIZE as nat, |p: int| false));
        assert(r@.breakpoints =~= Seq::<u16>::empty());
        r
    }

    /// The classification of `inst` that execution dispatches on.
    pub fn find_instruction_func(inst: u16) -> (r: InstructionType)
        ensures
            r == decode(inst),
    {
        find_instruction_func(inst)
    }

    /// An engine with zeroed memory, starting at address 0.
    pub fn new(quirks: QuirksConfig) -> (r: Chip8State)
        ensures
            r.wf(),
            r@ == initial_state(initial_machine(zero_memory(), 0), quirks),
    {
        let memory = Memory::new();
        proof {
            assert(memory@ =~= zero_memory());
        }
        Chip8State::with_memory(memory, 0, quirks)
    }

    /// An engine whose memory holds `memory` from address 0, starting at
    /// address 0; fails when the image is larger than the address space.
    pub fn from_memory(memory: Vec<u8>, quirks: QuirksConfig) -> (r: Result<Chip8State, Chip8Error>)
        ensures
            memory@.len() > MEMORY_SIZE ==> r == Err::<Chip8State, Chip8Error>(
                Chip8Error::AddressOverflow,
            ),
            memory@.len() <= MEMORY_SIZE ==> r is Ok && r->Ok_0.wf() && r->Ok_0@ == initial_state(
                initial_machine(overwrite(zero_memory(), 0, memory@), 0),
                quirks,
            ),
    {
        if memory.len() > MEMORY_SIZE {
            return Err(Chip8Error::AddressOverflow);
        }
        let mem = Memory::from_vec(memory);
        proof {
            assert(Seq::new(4096, |a: int| 0u8) =~= zero_memory());
        }
        Ok(Chip8State::with_memory(mem, 0, quirks))
    }

    /// An engine with `image` loaded at `offset` and execution starting at
    /// `start`; fails when the image or the start address lies outside the
    /// address space.
    pub fn create(image: &Vec<u8>, offset: u16, start: u16, quirks: QuirksConfig) -> (r: Result<
        Chip8State,
        Chip8Error,
    >)
        ensures
            offset + image@.len() > MEMORY_SIZE || start >= 4096 ==> r == Err::<
                Chip8State,
                Chip8Error,
            >(Chip8Error::AddressOverflow),
            offset + image@.len() <= MEMORY_SIZE && start < 4096 ==> r is Ok && r->Ok_0.wf()
                && r->Ok_0@ == initial_state(
                initial_machine(overwrite(zero_memory(), offset as int, image@), start),
                quirks,
            ),
    {
        if image.len() > MEMORY_SIZE || offset as usize > MEMORY_SIZE - image.len() || start >= 4096 {
            return Err(Chip8Error::AddressOverflow);
        }
        let mut mem = Memory::new();
        mem.write(offset as usize, image.as_slice());
        proof {
            assert(Seq::new(4096, |a: int| 0u8) =~= zero_memory());
        }
        Ok(Chip8State::with_memory(mem, start, quirks))
    }

    /// Writes `to_load` into memory from `offset`; fails, changing nothing,
    /// when it does not fit.
    pub fn load_memory(&mut self, to_load: Vec<u8>, offset: usize) -> (r: Result<(), Chip8Error>)
        requires
            old(self).wf(),
        ensures
            final(self).wf(),
            offset + to_load@.len() > MEMORY_SIZE ==> r == Err::<(), Chip8Error>(
                Chip8Error::AddressOverflow,
            ) && final(self)@ == old(self)@,
            offset + to_load@.len() <= MEMORY_SIZE ==> r is Ok && final(self)@ == (Chip8View {
                machine: MachineView {
                    memory: overwrite(old(self)@.machine.memory, offset as int, to_load@),
                    ..old(self)@.machine
                },
                ..old(self)@
            }),
    {
        if to_load.len() > MEMORY_SIZE || offset > MEMORY_SIZE - to_load.len() {
            return Err(Chip8Error::AddressOverflow);
        }
        self.machine.memory.write(offset, to_load.as_slice());
        Ok(())
    }
}


fn x_index(inst: u16) -> (r: usize)
    ensures
        r == x_of(inst),
        r < 16,
{
    ((inst / 0x100) % 0x10) as usize
}

fn y_index(inst: u16) -> (r: usize)
    ensures
        r == y_of(inst),
        r < 16,
{
    ((inst / 0x10) % 0x10) as usize
}

impl Chip8State {
    fn next_pc(&self) -> (r: u16)
        requires
            self.wf(),
        ensures
            r == next_pc(self@.machine),
    {
        (self.machine.pc + 2) % 4096
    }

    fn skip_pc(&self) -> (r: u16)
        requires
            self.wf(),
        ensures
            r == skip_pc(self@.machine),
    {
        (self.machine.pc + 4) % 4096
    }

    /// `0NNN`: a call into host machine code, here only a move to the next
    /// instruction.
    pub fn call_rca1802_code_routine(&mut self, inst: u16)
        requires
            old(self).wf(),
            decode(inst) == InstructionType::CallRca1802CodeRoutine,
        ensures
            final(self).wf(),
            executes(old(self)@, final(self)@, inst, 0),
    {
        self.machine.pc = self.next_pc();
    }

    /// `00E0`: clears the screen.
    pub fn clear_display(&mut self, inst: u16)
        requires
            old(self).wf(),
            decode(inst) == InstructionType::ClearDisplay,
        ensures
            final(self).wf(),
            executes(old(self)@, final(self)@, inst, 0),
    {
        self.machine.screen = [false; 2048];
        self.machine.pc = self.next_pc();
        assert(self@.machine.screen =~= Seq::new(SCREEN_SIZE as nat, |p: int| false));
    }

    /// `00EE`: returns to the address on top of the stack; on an empty
    /// stack fails and stops execution.
    pub fn return_from_subroutine(&mut self, inst: u16) -> (r: Result<(), Chip8Error>)
        requires
            old(self).wf(),
            decode(inst) == InstructionType::ReturnFromSubroutine,
        ensures
            final(self).wf(),
            executes(old(self)@, final(self)@, inst, 0),
            r == outcome(exec_spec(old(self)@.machine, old(self)@.quirks, inst, 0)),
    {
        let addr = self.machine.stack.pop();
        match addr {
            Ok(a) => {
                self.machine.pc = a;
                Ok(())
            },
            Err(e) => {
                self.stop_execution();
                Err(e)
            },
        }
    }

    /// `1NNN`: jumps to `NNN`.
    pub fn jmp(&mut self, inst: u16)
        requires
            old(self).wf(),
            decode(inst) == InstructionType::Jmp,
        ensures
            final(self).wf(),
            executes(old(self)@, final(self)@, inst, 0),
    {
        self.machine.pc = inst % 0x1000;
    }

    /// `2NNN`: saves the next address and jumps to `NNN`; on a full stack
    /// fails and stops execution.
    pub fn call(&mut self, inst: u16) -> (r: Result<(), Chip8Error>)
        requires
            old(self).wf(),
            decode(inst) == InstructionType::Call,
        ensures
            final(self).wf(),
            executes(old(self)@, final(self)@, inst, 0),
            r == outcome(exec_spec(old(self)@.machine, old(self)@.quirks, inst, 0)),
    {
        let next = self.next_pc();
        match self.machine.stack.push(next) {
            Ok(()) => {
                self.machine.pc = inst % 0x1000;
                Ok(())
            },
            Err(e) => {
                self.stop_execution();
                Err(e)
            },
        }
    }

    /// `3XNN`: skips the next instruction when `VX == NN`.
    pub fn skip_eq(&mut self, inst: u16)
        requires
            old(self).wf(),
            decode(inst) == InstructionType::SkipEq,
        ensures
            final(self).wf(),
            executes(old(self)@, final(self)@, inst, 0),
    {
        let x = x_index(inst);
        let nn = (inst % 0x100) as u8;
        if self.machine.reg[x] == nn {
            self.machine.pc = self.skip_pc();
        } else {
            self.machine.pc = self.next_pc();
        }
    }

    /// `4XNN`: skips the next instruction when `VX != NN`.
    pub fn skip_neq(&mut self, inst: u16)
        requires
            old(self).wf(),
            decode(inst) == InstructionType::SkipNeq,
        ensures
            final(self).wf(),
            executes(old(self)@, final(self)@, inst, 0),
    {
        let x = x_index(inst);
        let nn = (inst % 0x100) as u8;
        if self.machine.reg[x] != nn {
            self.machine.pc = self.skip_pc();
        } else {
            self.machine.pc = self.next_pc();
        }
    }

    /// `5XY0`: skips the next instruction when `VX == VY`.
    pub fn skip_regs_eq(&mut self, inst: u16)
        requires
            old(self).wf(),
            decode(inst) == InstructionType::SkipRegsEq,
        ensures
            final(self).wf(),
            executes(old(self)@, final(self)@, inst, 0),
    {
        let x = x_index(inst);
        let y = y_index(inst);
        if self.machine.reg[x] == self.machine.reg[y] {
            self.machine.pc = self.skip_pc();
        } else {
            self.machine.pc = self.next_pc();
        }
    }

    /// `6XNN`: sets `VX` to `NN`.
    pub fn set_val(&mut self, inst: u16)
        requires
            old(self).wf(),
            decode(inst) == InstructionType::SetVal,
        ensures
            final(self).wf(),
            executes(old(self)@, final(self)@, inst, 0),
    {
        let x = x_index(inst);
        self.machine.reg[x] = (inst % 0x100) as u8;
        self.machine.pc = self.next_pc();
    }

    /// `7XNN`: adds `NN` to `VX`, wrapping, without touching VF.
    pub fn add_val(&mut self, inst: u16)
        requires
            old(self).wf(),
            decode(inst) == InstructionType::AddVal,
        ensures
            final(self).wf(),
            executes(old(self)@, final(self)@, inst, 0),
    {
        let x = x_index(inst);
        let nn = (inst % 0x100) as u8;
        self.machine.reg[x] = self.machine.reg[x].wrapping_add(nn);
        self.machine.pc = self.next_pc();
    }

    /// `8XY0`: sets `VX` to `VY`.
    pub fn set_reg(&mut self, inst: u16)
        requires
            old(self).wf(),
            decode(inst) == InstructionType::SetReg,
        ensures
            final(self).wf(),
            executes(old(self)@, final(self)@, inst, 0),
    {
        let x = x_index(inst);
        let y = y_index(inst);
        self.machine.reg[x] = self.machine.reg[y];
        self.machine.pc = self.next_pc();
    }
}


/// Relies on rand's `thread_rng().gen::<u8>()`: a uniformly drawn byte,
/// of which nothing can be promised.
#[verifier::external_body]
fn random_byte() -> (r: u8) {
    rand::Rng::gen::<u8>(&mut rand::thread_rng())
}

impl Chip8State {
    fn bitwise_done(&mut self, x: usize, v: u8)
        requires
            old(self).wf(),
            x < 16,
        ensures
            final(self).wf(),
            final(self)@ == (Chip8View {
                machine: if old(self)@.quirks.vf_reset {
                    set_x_flag(old(self)@.machine, x as int, v, 0)
                } else {
                    set_x(old(self)@.machine, x as int, v)
                },
                ..old(self)@
            }),
    {
        self.machine.reg[x] = v;
        if self.quirks.vf_reset {
            self.machine.reg[15] = 0;
        }
        self.machine.pc = self.next_pc();
    }

    /// `8XY1`: `VX |= VY`; clears VF under the `vf_reset` quirk.
    pub fn or_reg(&mut self, inst: u16)
        requires
            old(self).wf(),
            decode(inst) == InstructionType::OrReg,
        ensures
            final(self).wf(),
            executes(old(self)@, final(self)@, inst, 0),
    {
        let x = x_index(inst);
        let y = y_index(inst);
        let v = self.machine.reg[x] | self.machine.reg[y];
        self.bitwise_done(x, v);
    }

    /// `8XY2`: `VX &= VY`; clears VF under the `vf_reset` quirk.
    pub fn and_reg(&mut self, inst: u16)
        requires
            old(self).wf(),
            decode(inst) == InstructionType::AndReg,
        ensures
            final(self).wf(),
            executes(old(self)@, final(self)@, inst, 0),
    {
        let x = x_index(inst);
        let y = y_index(inst);
        let v = self.machine.reg[x] & self.machine.reg[y];
        self.bitwise_done(x, v);
    }

    /// `8XY3`: `VX ^= VY`; clears VF under the `vf_reset` quirk.
    pub fn xor_reg(&mut self, inst: u16)
        requires
            old(self).wf(),
            decode(inst) == InstructionType::XorReg,
        ensures
            final(self).wf(),
            executes(old(self)@, final(self)@, inst, 0),
    {
        let x = x_index(inst);
        let y = y_index(inst);
        let v = self.machine.reg[x] ^ self.machine.reg[y];
        self.bitwise_done(x, v);
    }

    fn set_with_flag(&mut self, x: usize, v: u8, flag: u8)
        requires
            old(self).wf(),
            x < 16,
        ensures
            final(self).wf(),
            final(self)@ == (Chip8View {
                machine: set_x_flag(old(self)@.machine, x as int, v, flag),
                ..old(self)@
            }),
    {
        self.machine.reg[x] = v;
        self.machine.reg[15] = flag;
        self.machine.pc = self.next_pc();
    }

    /// `8XY4`: `VX += VY`, wrapping; VF is the carry.
    pub fn add_reg(&mut self, inst: u16)
        requires
            old(self).wf(),
            decode(inst) == InstructionType::AddReg,
        ensures
            final(self).wf(),
            executes(old(self)@, final(self)@, inst, 0),
    {
        let x = x_index(inst);
        let y = y_index(inst);
        let a = self.machine.reg[x];
        let b = self.machine.reg[y];
        let carry: u8 = if a as u16 + b as u16 > 255 { 1 } else { 0 };
        self.set_with_flag(x, a.wrapping_add(b), carry);
    }

    /// `8XY5`: `VX -= VY`, wrapping; VF is 0 on a borrow, else 1.
    pub fn sub_reg(&mut self, inst: u16)
        requires
            old(self).wf(),
            decode(inst) == InstructionType::SubReg,
        ensures
            final(self).wf(),
            executes(old(self)@, final(self)@, inst, 0),
    {
        let x = x_index(inst);
        let y = y_index(inst);
        let a = self.machine.reg[x];
        let b = self.machine.reg[y];
        let no_borrow: u8 = if a < b { 0 } else { 1 };
        self.set_with_flag(x, a.wrapping_sub(b), no_borrow);
    }

    /// `8XY6`: shifts right by one (VY into VX unless the `shifting` quirk
    /// is set); VF is the bit shifted out.
    pub fn rsh_reg(&mut self, inst: u16)
        requires
            old(self).wf(),
            decode(inst) == InstructionType::RshReg,
        ensures
            final(self).wf(),
            executes(old(self)@, final(self)@, inst, 0),
    {
        let x = x_index(inst);
        let y = y_index(inst);
        let v = if self.quirks.shifting { self.machine.reg[x] } else { self.machine.reg[y] };
        self.set_with_flag(x, v / 2, v % 2);
    }

    /// `8XY7`: `VX = VY - VX`, wrapping; VF is 0 on a borrow, else 1.
    pub fn reverse_sub_reg(&mut self, inst: u16)
        requires
            old(self).wf(),
            decode(inst) == InstructionType::ReverseSubReg,
        ensures
            final(self).wf(),
            executes(old(self)@, final(self)@, inst, 0),
    {
        let x = x_index(inst);
        let y = y_index(inst);
        let a = self.machine.reg[x];
        let b = self.machine.reg[y];
        let no_borrow: u8 = if b < a { 0 } else { 1 };
        self.set_with_flag(x, b.wrapping_sub(a), no_borrow);
    }

    /// `8XYE`: shifts left by one (VY into VX unless the `shifting` quirk
    /// is set); VF is the bit shifted out.
    pub fn lsh_reg(&mut self, inst: u16)
        requires
            old(self).wf(),
            decode(inst) == InstructionType::LshReg,
        ensures
            final(self).wf(),
            executes(old(self)@, final(self)@, inst, 0),
    {
        let x = x_index(inst);
        let y = y_index(inst);
        let v = if self.quirks.shifting { self.machine.reg[x] } else { self.machine.reg[y] };
        self.set_with_flag(x, ((v as u16 * 2) % 256) as u8, v / 128);
    }

    /// `9XY0`: skips the next instruction when `VX != VY`.
    pub fn skip_regs_neq(&mut self, inst: u16)
        requires
            old(self).wf(),
            decode(inst) == InstructionType::SkipRegsNeq,
        ensures
            final(self).wf(),
            executes(old(self)@, final(self)@, inst, 0),
    {
        let x = x_index(inst);
        let y = y_index(inst);
        if self.machine.reg[x] != self.machine.reg[y] {
            self.machine.pc = self.skip_pc();
        } else {
            self.machine.pc = self.next_pc();
        }
    }

    /// `ANNN`: sets the index register to `NNN`.
    pub fn set_addr(&mut self, inst: u16)
        requires
            old(self).wf(),
            decode(inst) == InstructionType::SetAddr,
        ensures
            final(self).wf(),
            executes(old(self)@, final(self)@, inst, 0),
    {
        self.machine.addr = inst % 0x1000;
        self.machine.pc = self.next_pc();
    }

    /// `BNNN`: jumps to `NNN + V0`, or with the `jumping` quirk to
    /// `XNN + VX`, wrapping in the address space.
    pub fn jmp_plus(&mut self, inst: u16)
        requires
            old(self).wf(),
            decode(inst) == InstructionType::JmpPlus,
        ensures
            final(self).wf(),
            executes(old(self)@, final(self)@, inst, 0),
    {
        let x = x_index(inst);
        let offset = if self.quirks.jumping { self.machine.reg[x] } else { self.machine.reg[0] };
        self.machine.pc = (inst % 0x1000 + offset as u16) % 4096;
    }

    /// `CXNN` with `rnd` as the random byte: `VX = rnd & NN`.
    pub fn rand_with(&mut self, inst: u16, rnd: u8)
        requires
            old(self).wf(),
            decode(inst) == InstructionType::Rand,
        ensures
            final(self).wf(),
            executes(old(self)@, final(self)@, inst, rnd),
    {
        let x = x_index(inst);
        self.machine.reg[x] = rnd & ((inst % 0x100) as u8);
        self.machine.pc = self.next_pc();
    }

    /// `CXNN`: `VX` becomes a random byte masked with `NN`.
    pub fn rand(&mut self, inst: u16)
        requires
            old(self).wf(),
            decode(inst) == InstructionType::Rand,
        ensures
            final(self).wf(),
            exists|rnd: u8| executes(old(self)@, final(self)@, inst, rnd),
    {
        let rnd = random_byte();
        self.rand_with(inst, rnd);
    }

    /// `EX9E`: skips the next instruction when key `VX mod 16` is down.
    pub fn skip_if_pressed(&mut self, inst: u16)
        requires
            old(self).wf(),
            decode(inst) == InstructionType::SkipIfPressed,
        ensures
            final(self).wf(),
            executes(old(self)@, final(self)@, inst, 0),
    {
        let x = x_index(inst);
        let k = (self.machine.reg[x] % 16) as usize;
        if self.machine.key_pressed[k] {
            self.machine.pc = self.skip_pc();
        } else {
            self.machine.pc = self.next_pc();
        }
    }

    /// `EXA1`: skips the next instruction when key `VX mod 16` is up.
    pub fn skip_if_not_pressed(&mut self, inst: u16)
        requires
            old(self).wf(),
            decode(inst) == InstructionType::SkipIfNotPressed,
        ensures
            final(self).wf(),
            executes(old(self)@, final(self)@, inst, 0),
    {
        let x = x_index(inst);
        let k = (self.machine.reg[x] % 16) as usize;
        if !self.machine.key_pressed[k] {
            self.machine.pc = self.skip_pc();
        } else {
            self.machine.pc = self.next_pc();
        }
    }

    /// `FX07`: `VX` becomes the delay timer.
    pub fn get_delay_timer(&mut self, inst: u16)
        requires
            old(self).wf(),
            decode(inst) == InstructionType::GetDelayTimer,
        ensures
            final(self).wf(),
            executes(old(self)@, final(self)@, inst, 0),
    {
        let x = x_index(inst);
        self.machine.reg[x] = self.machine.delay_timer;
        self.machine.pc = self.next_pc();
    }

    /// `FX0A`: waits for a fresh key press, to be stored in `VX`.
    pub fn get_keypress(&mut self, inst: u16)
        requires
            old(self).wf(),
            decode(inst) == InstructionType::GetKeypress,
        ensures
            final(self).wf(),
            executes(old(self)@, final(self)@, inst, 0),
    {
        let x = x_index(inst);
        self.machine.keypress_halt = true;
        self.machine.keypress_reg = x as u8;
        self.machine.pc = self.next_pc();
    }

    /// `FX15`: the delay timer becomes `VX`.
    pub fn set_delay_timer(&mut self, inst: u16)
        requires
            old(self).wf(),
            decode(inst) == InstructionType::SetDelayTimer,
        ensures
            final(self).wf(),
            executes(old(self)@, final(self)@, inst, 0),
    {
        let x = x_index(inst);
        self.machine.delay_timer = self.machine.reg[x];
        self.machine.pc = self.next_pc();
    }

    /// `FX18`: the sound timer becomes `VX`.
    pub fn set_sound_timer(&mut self, inst: u16)
        requires
            old(self).wf(),
            decode(inst) == InstructionType::SetSoundTimer,
        ensures
            final(self).wf(),
            executes(old(self)@, final(self)@, inst, 0),
    {
        let x = x_index(inst);
        self.machine.sound_timer = self.machine.reg[x];
        self.machine.pc = self.next_pc();
    }

    /// `FX1E`: adds `VX` to the index register, wrapping in the address space.
    pub fn add_to_addr(&mut self, inst: u16)
        requires
            old(self).wf(),
            decode(inst) == InstructionType::AddToAddr,
        ensures
            final(self).wf(),
            executes(old(self)@, final(self)@, inst, 0),
    {
        let x = x_index(inst);
        self.machine.addr = (self.machine.addr + self.machine.reg[x] as u16) % 4096;
        self.machine.pc = self.next_pc();
    }

    /// `FX29`: would point the index register at the glyph for `VX`. No
    /// font table is installed, so the index register is left as it is and
    /// only the program counter moves on.
    pub fn set_addr_to_sprite_addr(&mut self, inst: u16)
        requires
            old(self).wf(),
            decode(inst) == InstructionType::SetAddrToSpriteAddr,
        ensures
            final(self).wf(),
            executes(old(self)@, final(self)@, inst, 0),
    {
        self.machine.pc = self.next_pc();
    }
}


/// Writes `data` into `mem` from `start`, wrapping at the end of the
/// address space.
fn write_wrapped(mem: &mut Memory, start: u16, data: &[u8])
    requires
        start < 4096,
        data@.len() <= 16,
    ensures
        final(mem)@ == wrap_write(old(mem)@, start as int, data@),
{
    let mut i: usize = 0;
    while i < data.len()
        invariant
            start < 4096,
            data@.len() <= 16,
            i <= data@.len(),
            mem@.len() == 4096,
            forall|a: int|
                0 <= a < 4096 ==> #[trigger] mem@[a] == ({
                    let d = (a - start + 4096) % 4096;
                    if d < i {
                        data@[d]
                    } else {
                        old(mem)@[a]
                    }
                }),
        decreases data@.len() - i,
    {
        let a = (start as usize + i) % 4096;
        mem.memory[a] = data[i];
        i = i + 1;
    }
    assert(mem@ =~= wrap_write(old(mem)@, start as int, data@));
}

impl Chip8State {
    /// `FX33`: stores the decimal digits of `VX`, hundreds first, from the
    /// index register on.
    pub fn store_bcd(&mut self, inst: u16)
        requires
            old(self).wf(),
            decode(inst) == InstructionType::StoreBcd,
        ensures
            final(self).wf(),
            executes(old(self)@, final(self)@, inst, 0),
    {
        let x = x_index(inst);
        let v = self.machine.reg[x];
        let digits: [u8; 3] = [v / 100, (v / 10) % 10, v % 10];
        assert(digits@ =~= bcd(v));
        write_wrapped(&mut self.machine.memory, self.machine.addr, digits.as_slice());
        self.machine.pc = self.next_pc();
    }

    /// `FX55`: stores `V0..=VX` from the index register on; under the
    /// `memory` quirk the index register then moves past them.
    pub fn reg_dump(&mut self, inst: u16)
        requires
            old(self).wf(),
            decode(inst) == InstructionType::RegDump,
        ensures
            final(self).wf(),
            executes(old(self)@, final(self)@, inst, 0),
    {
        let x = x_index(inst);
        let regs = self.machine.reg;
        let part = regs.as_slice().split_at(x + 1).0;
        assert(part@ =~= regs@.subrange(0, x + 1));
        write_wrapped(&mut self.machine.memory, self.machine.addr, part);
        if self.quirks.memory {
            self.machine.addr = (self.machine.addr + x as u16 + 1) % 4096;
        }
        self.machine.pc = self.next_pc();
    }

    /// `FX65`: loads `V0..=VX` from the index register on; under the
    /// `memory` quirk the index register then moves past them.
    #[verifier::rlimit(30)]
    pub fn reg_load(&mut self, inst: u16)
        requires
            old(self).wf(),
            decode(inst) == InstructionType::RegLoad,
        ensures
            final(self).wf(),
            executes(old(self)@, final(self)@, inst, 0),
    {
        let x = x_index(inst);
        let addr = self.machine.addr;
        let mut i: usize = 0;
        assert(self@.machine.reg =~= Seq::new(
            16,
            |j: int|
                if j < 0 {
                    old(self)@.machine.memory[wrap(addr + j) as int]
                } else {
                    old(self)@.machine.reg[j]
                },
        ));
        while i <= x
            invariant
                self.wf(),
                x < 16,
                i <= x + 1,
                addr == old(self)@.machine.addr,
                self@ == (Chip8View {
                    machine: MachineView {
                        reg: Seq::new(
                            16,
                            |j: int|
                                if j < i {
                                    old(self)@.machine.memory[wrap(addr + j) as int]
                                } else {
                                    old(self)@.machine.reg[j]
                                },
                        ),
                        ..old(self)@.machine
                    },
                    ..old(self)@
                }),
            decreases x + 1 - i,
        {
            let a = (addr as usize + i) % 4096;
            self.machine.reg[i] = self.machine.memory.memory[a];
            i = i + 1;
            assert(self@.machine.reg =~= Seq::new(
                16,
                |j: int|
                    if j < i {
                        old(self)@.machine.memory[wrap(addr + j) as int]
                    } else {
                        old(self)@.machine.reg[j]
                    },
            ));
        }
        if self.quirks.memory {
            self.machine.addr = (self.machine.addr + x as u16 + 1) % 4096;
        }
        self.machine.pc = self.next_pc();
        assert(self@.machine.reg =~= Seq::new(
            16,
            |j: int|
                if j <= x {
                    old(self)@.machine.memory[wrap(addr + j) as int]
                } else {
                    old(self)@.machine.reg[j]
                },
        ));
    }
}


/// Whether sprite cell `(i, j)` reaches the screen, and at which pixel.
spec fn cell_pixel(clip: bool, ox: int, oy: int, i: int, j: int) -> (bool, int) {
    if clip {
        (oy + i < 32 && ox + j < 64, (oy + i) * 64 + ox + j)
    } else {
        (true, ((oy + i) % 32) * 64 + (ox + j) % 64)
    }
}

/// Pixel `q` is reached by sprite cell `(i, j)` exactly when that cell
/// reaches the screen at `q`.
proof fn lemma_cell_pixel(clip: bool, ox: int, oy: int, i: int, j: int, q: int)
    requires
        0 <= ox < 64,
        0 <= oy < 32,
        0 <= i < 16,
        0 <= j < 8,
        0 <= q < 2048,
    ensures
        (sprite_row(clip, oy, q) == i && sprite_col(clip, ox, q) == j) <==> (cell_pixel(
            clip,
            ox,
            oy,
            i,
            j,
        ).0 && q == cell_pixel(clip, ox, oy, i, j).1),
{
    let qr = q / 64;
    let qc = q % 64;
    assert(q == qr * 64 + qc && 0 <= qr < 32 && 0 <= qc < 64);
}

/// Whether the draw loops, standing at row `i` and column `j`, have
/// already handled pixel `p`.
spec fn handled(m: MachineView, clip: bool, inst: u16, p: int, i: int, j: int) -> bool {
    let ox = m.reg[x_of(inst) as int] % 64;
    let oy = m.reg[y_of(inst) as int] % 32;
    let di = sprite_row(clip, oy as int, p);
    let dj = sprite_col(clip, ox as int, p);
    di < i || (di == i && dj < j)
}

/// The screen once the draw loops have handled every cell before `(i, j)`.
spec fn partial_screen(m: MachineView, clip: bool, inst: u16, i: int, j: int) -> Seq<bool> {
    Seq::new(
        SCREEN_SIZE as nat,
        |p: int| m.screen[p] != (draw_flips(m, clip, inst, p) && handled(m, clip, inst, p, i, j)),
    )
}

/// Whether a handled pixel has been turned off.
spec fn partial_collision(m: MachineView, clip: bool, inst: u16, i: int, j: int) -> bool {
    exists|p: int|
        0 <= p < SCREEN_SIZE && m.screen[p] && #[trigger] draw_flips(m, clip, inst, p) && handled(
            m,
            clip,
            inst,
            p,
            i,
            j,
        )
}

impl Chip8State {
    /// `DXYN`: XORs the `N`-row sprite at the index register onto the
    /// screen at `(VX mod 64, VY mod 32)`, clipping or wrapping at the
    /// edges by the `clipping` quirk; VF is 1 exactly when a lit pixel was
    /// turned off.
    #[verifier::rlimit(30)]
    pub fn draw(&mut self, inst: u16)
        requires
            old(self).wf(),
            decode(inst) == InstructionType::Draw,
        ensures
            final(self).wf(),
            executes(old(self)@, final(self)@, inst, 0),
    {
        let ghost m0 = self@.machine;
        let x = x_index(inst);
        let y = y_index(inst);
        let n = (inst % 0x10) as usize;
        let ox = (self.machine.reg[x] % 64) as usize;
        let oy = (self.machine.reg[y] % 32) as usize;
        let clip = self.quirks.clipping;
        let addr = self.machine.addr;
        let mut collided = false;
        let mut i: usize = 0;
        assert(self@.machine.screen =~= partial_screen(m0, clip, inst, 0, 0));
        while i < n
            invariant
                self.wf(),
                n == n_of(inst),
                n < 16,
                i <= n,
                ox == m0.reg[x_of(inst) as int] % 64,
                oy == m0.reg[y_of(inst) as int] % 32,
                clip == old(self)@.quirks.clipping,
                addr == m0.addr,
                m0 == old(self)@.machine,
                self@ == (Chip8View {
                    machine: MachineView { screen: partial_screen(m0, clip, inst, i as int, 0), ..m0 },
                    ..old(self)@
                }),
                collided == partial_collision(m0, clip, inst, i as int, 0),
            decreases n - i,
        {
            let byte = self.machine.memory.memory[(addr as usize + i) % 4096];
            let mut j: usize = 0;
            while j < 8
                invariant
                    self.wf(),
                    n == n_of(inst),
                    n < 16,
                    i < n,
                    j <= 8,
                    ox == m0.reg[x_of(inst) as int] % 64,
                    oy == m0.reg[y_of(inst) as int] % 32,
                    clip == old(self)@.quirks.clipping,
                    addr == m0.addr,
                    m0 == old(self)@.machine,
                    byte == m0.memory[wrap(addr + i) as int],
                    self@ == (Chip8View {
                        machine: MachineView {
                            screen: partial_screen(m0, clip, inst, i as int, j as int),
                            ..m0
                        },
                        ..old(self)@
                    }),
                    collided == partial_collision(m0, clip, inst, i as int, j as int),
                decreases 8 - j,
            {
                let ghost before_screen = self@.machine.screen;
                let ghost cell = cell_pixel(clip, ox as int, oy as int, i as int, j as int);
                proof {
                    assert forall|q: int| 0 <= q < 2048 implies (sprite_row(clip, oy as int, q) == i
                        && sprite_col(clip, ox as int, q) == j) <==> (cell.0 && q == cell.1) by {
                        lemma_cell_pixel(clip, ox as int, oy as int, i as int, j as int, q);
                    }
                }
                let row = if clip { oy + i } else { (oy + i) % 32 };
                let col = if clip { ox + j } else { (ox + j) % 64 };
                if row < 32 && col < 64 {
                    let p = row * 64 + col;
                    assert(cell.0 && p == cell.1);
                    let bit = (byte >> (7 - j as u8)) & 1 == 1;
                    assert(bit == draw_flips(m0, clip, inst, p as int));
                    if bit {
                        let before = self.machine.screen[p];
                        self.machine.screen[p] = !before;
                        if before {
                            collided = true;
                        }
                    }
                } else {
                    assert(!cell.0);
                }
                j = j + 1;
                assert(self@.machine.screen =~= partial_screen(m0, clip, inst, i as int, j as int));
                assert(collided == partial_collision(m0, clip, inst, i as int, j as int));
            }
            i = i + 1;
            assert(self@.machine.screen =~= partial_screen(m0, clip, inst, i as int, 0));
            assert(collided == partial_collision(m0, clip, inst, i as int, 0));
        }
        assert(self@.machine.screen =~= drawn_screen(m0, clip, inst));
        assert(collided == draw_collides(m0, clip, inst));
        self.machine.reg[15] = if collided { 1 } else { 0 };
        self.machine.pc = self.next_pc();
    }
}


impl Chip8State {
    /// Executes instruction word `inst`, with `rnd` as the random byte that
    /// `CXNN` uses. A stack error stops execution; a bad instruction
    /// changes nothing.
    #[verifier::rlimit(30)]
    pub fn execute(&mut self, inst: u16, rnd: u8) -> (r: Result<(), Chip8Error>)
        requires
            old(self).wf(),
        ensures
            final(self).wf(),
            executes(old(self)@, final(self)@, inst, rnd),
            r == outcome(exec_spec(old(self)@.machine, old(self)@.quirks, inst, rnd)),
    {
        match find_instruction_func(inst) {
            InstructionType::CallRca1802CodeRoutine => self.call_rca1802_code_routine(inst),
            InstructionType::ClearDisplay => self.clear_display(inst),
            InstructionType::ReturnFromSubroutine => return self.return_from_subroutine(inst),
            InstructionType::Jmp => self.jmp(inst),
            InstructionType::Call => return self.call(inst),
            InstructionType::SkipEq => self.skip_eq(inst),
            InstructionType::SkipNeq => self.skip_neq(inst),
            InstructionType::SkipRegsEq => self.skip_regs_eq(inst),
            InstructionType::SetVal => self.set_val(inst),
            InstructionType::AddVal => self.add_val(inst),
            InstructionType::SetReg => self.set_reg(inst),
            InstructionType::OrReg => self.or_reg(inst),
            InstructionType::AndReg => self.and_reg(inst),
            InstructionType::XorReg => self.xor_reg(inst),
            InstructionType::AddReg => self.add_reg(inst),
            InstructionType::SubReg => self.sub_reg(inst),
            InstructionType::RshReg => self.rsh_reg(inst),
            InstructionType::ReverseSubReg => self.reverse_sub_reg(inst),
            InstructionType::LshReg => self.lsh_reg(inst),
            InstructionType::SkipRegsNeq => self.skip_regs_neq(inst),
            InstructionType::SetAddr => self.set_addr(inst),
            InstructionType::JmpPlus => self.jmp_plus(inst),
            InstructionType::Rand => self.rand_with(inst, rnd),
            InstructionType::Draw => self.draw(inst),
            InstructionType::SkipIfPressed => self.skip_if_pressed(inst),
            InstructionType::SkipIfNotPressed => self.skip_if_not_pressed(inst),
            InstructionType::GetDelayTimer => self.get_delay_timer(inst),
            InstructionType::GetKeypress => self.get_keypress(inst),
            InstructionType::SetDelayTimer => self.set_delay_timer(inst),
            InstructionType::SetSoundTimer => self.set_sound_timer(inst),
            InstructionType::AddToAddr => self.add_to_addr(inst),
            InstructionType::SetAddrToSpriteAddr => self.set_addr_to_sprite_addr(inst),
            InstructionType::StoreBcd => self.store_bcd(inst),
            InstructionType::RegDump => self.reg_dump(inst),
            InstructionType::RegLoad => self.reg_load(inst),
            InstructionType::BadInstruction => return Err(Chip8Error::BadInstruction(inst)),
        }
        Ok(())
    }

    /// The instruction word at the program counter.
    pub fn fetch(&self) -> (r: u16)
        requires
            self.wf(),
        ensures
            r == fetch(self@.machine),
    {
        let pc = self.machine.pc as usize;
        let hi = self.machine.memory.memory[pc] as u16;
        let lo = self.machine.memory.memory[(pc + 1) % 4096] as u16;
        hi * 256 + lo
    }

    /// Fetches and executes the instruction at the program counter, with no
    /// run-control bookkeeping; a random byte is drawn for `CXNN`.
    pub fn execute_instruction(&mut self) -> (r: Result<(), Chip8Error>)
        requires
            old(self).wf(),
        ensures
            final(self).wf(),
            exists|rnd: u8|
                {
                    &&& executes(old(self)@, final(self)@, fetch(old(self)@.machine), rnd)
                    &&& r == outcome(
                        exec_spec(
                            old(self)@.machine,
                            old(self)@.quirks,
                            fetch(old(self)@.machine),
                            rnd,
                        ),
                    )
                },
    {
        let inst = self.fetch();
        let rnd = if matches!(find_instruction_func(inst), InstructionType::Rand) {
            random_byte()
        } else {
            0
        };
        self.execute(inst, rnd)
    }

    /// Stops at once when the program counter is on a breakpoint.
    pub fn check_for_breakpoints(&mut self)
        requires
            old(self).wf(),
        ensures
            final(self).wf(),
            final(self)@ == (if old(self)@.breakpoints.contains(old(self)@.machine.pc) {
                Chip8View { machine: halted(old(self)@.machine), ..old(self)@ }
            } else {
                old(self)@
            }),
    {
        let mut k: usize = 0;
        while k < self.breakpoints.len()
            invariant
                *self == *old(self),
                self.wf(),
                k <= self.breakpoints@.len(),
                forall|l: int| 0 <= l < k ==> self.breakpoints@[l].addr != self.machine.pc,
            decreases self.breakpoints@.len() - k,
        {
            if self.breakpoints[k].addr == self.machine.pc {
                assert(self@.breakpoints[k as int] == self.machine.pc);
                self.stop_execution();
                return;
            }
            k = k + 1;
        }
        assert(!self@.breakpoints.contains(self.machine.pc)) by {
            if self@.breakpoints.contains(self.machine.pc) {
                let l = choose|l: int|
                    0 <= l < self@.breakpoints.len() && self@.breakpoints[l] == self.machine.pc;
                assert(self.breakpoints@[l].addr == self.machine.pc);
            }
        }
    }

    /// The per-step entry point with `rnd` as the random byte: while
    /// running and not waiting for a key, executes the next instruction and
    /// does the run-control bookkeeping.
    #[verifier::rlimit(30)]
    pub fn emulate_instruction_with(&mut self, rnd: u8) -> (r: Result<(), Chip8Error>)
        requires
            old(self).wf(),
        ensures
            final(self).wf(),
            (final(self)@, r) == emulate_spec(old(self)@, rnd),
    {
        if self.machine.keypress_halt || self.machine.stop {
            return Ok(());
        }
        let inst = self.fetch();
        match self.execute(inst, rnd) {
            Ok(()) => {},
            Err(e) => return Err(e),
        }
        if self.machine.steps_to_stop > 0 {
            self.machine.steps_to_stop = self.machine.steps_to_stop - 1;
            if self.machine.steps_to_stop == 0 {
                self.machine.stop = true;
            }
        }
        self.check_for_breakpoints();
        Ok(())
    }

    /// The per-step entry point: while running and not waiting for a key,
    /// executes the next instruction, drawing a random byte for `CXNN`, and
    /// does the run-control bookkeeping.
    pub fn emulate_instruction(&mut self) -> (r: Result<(), Chip8Error>)
        requires
            old(self).wf(),
        ensures
            final(self).wf(),
            exists|rnd: u8| (final(self)@, r) == emulate_spec(old(self)@, rnd),
    {
        let rnd = if !self.machine.keypress_halt && !self.machine.stop && matches!(
            find_instruction_func(self.fetch()),
            InstructionType::Rand
        ) {
            random_byte()
        } else {
            0
        };
        self.emulate_instruction_with(rnd)
    }

    /// Requests `steps` more instructions and then a stop. Counts add up,
    /// saturating at `u16::MAX`.
    pub fn step(&mut self, steps: u16)
        requires
            old(self).wf(),
        ensures
            final(self).wf(),
            final(self)@ == (Chip8View {
                machine: MachineView {
                    stop: false,
                    steps_to_stop: if old(self)@.machine.steps_to_stop + steps > u16::MAX {
                        u16::MAX
                    } else {
                        (old(self)@.machine.steps_to_stop + steps) as u16
                    },
                    ..old(self)@.machine
                },
                ..old(self)@
            }),
    {
        self.machine.stop = false;
        self.machine.steps_to_stop = self.machine.steps_to_stop.saturating_add(steps);
    }

    /// Stops execution and drops any pending step request.
    pub fn stop_execution(&mut self)
        requires
            old(self).wf(),
        ensures
            final(self).wf(),
            final(self)@ == (Chip8View { machine: halted(old(self)@.machine), ..old(self)@ }),
    {
        self.machine.stop = true;
        self.machine.steps_to_stop = 0;
    }

    /// Runs on without limit, dropping any pending step request.
    pub fn continue_execution(&mut self)
        requires
            old(self).wf(),
        ensures
            final(self).wf(),
            final(self)@ == (Chip8View {
                machine: MachineView { stop: false, steps_to_stop: 0, ..old(self)@.machine },
                ..old(self)@
            }),
    {
        self.machine.stop = false;
        self.machine.steps_to_stop = 0;
    }
}


impl Chip8State {
    /// Watches `addr`; a breakpoint already on it is kept as the only one.
    pub fn add_breakpoint(&mut self, breakpoint_addr: u16)
        requires
            old(self).wf(),
        ensures
            final(self).wf(),
            final(self)@ == (Chip8View {
                breakpoints: if old(self)@.breakpoints.contains(breakpoint_addr) {
                    old(self)@.breakpoints
                } else {
                    old(self)@.breakpoints.push(breakpoint_addr)
                },
                ..old(self)@
            }),
    {
        let mut k: usize = 0;
        while k < self.breakpoints.len()
            invariant
                *self == *old(self),
                self.wf(),
                k <= self.breakpoints@.len(),
                forall|l: int| 0 <= l < k ==> self.breakpoints@[l].addr != breakpoint_addr,
            decreases self.breakpoints@.len() - k,
        {
            if self.breakpoints[k].addr == breakpoint_addr {
                assert(self@.breakpoints[k as int] == breakpoint_addr);
                return;
            }
            k = k + 1;
        }
        assert(!self@.breakpoints.contains(breakpoint_addr)) by {
            if self@.breakpoints.contains(breakpoint_addr) {
                let l = choose|l: int|
                    0 <= l < self@.breakpoints.len() && self@.breakpoints[l] == breakpoint_addr;
                assert(self.breakpoints@[l].addr == breakpoint_addr);
            }
        }
        self.breakpoints.push(Breakpoint::new(breakpoint_addr));
        assert(self@.breakpoints =~= old(self)@.breakpoints.push(breakpoint_addr));
    }

    /// Stops watching the breakpoint at position `index` and returns its
    /// address; `None`, changing nothing, when there is no such position.
    pub fn remove_breakpoint(&mut self, index: usize) -> (r: Option<u16>)
        requires
            old(self).wf(),
        ensures
            final(self).wf(),
            index < old(self)@.breakpoints.len() ==> r == Some(old(self)@.breakpoints[index as int])
                && final(self)@ == (Chip8View {
                breakpoints: old(self)@.breakpoints.remove(index as int),
                ..old(self)@
            }),
            index >= old(self)@.breakpoints.len() ==> r is None && final(self)@ == old(self)@,
    {
        if index >= self.breakpoints.len() {
            return None;
        }
        let bp = self.breakpoints.remove(index);
        let ghost b = old(self)@.breakpoints;
        assert(self@.breakpoints =~= b.remove(index as int));
        assert forall|i: int, j: int|
            0 <= i < j < b.len() - 1 implies self@.breakpoints[i] != self@.breakpoints[j] by {
            let oi = if i < index { i } else { i + 1 };
            let oj = if j < index { j } else { j + 1 };
            assert(b[oi] != b[oj]);
        }
        Some(bp.addr)
    }

    /// The watched addresses, in the order they were added.
    pub fn breakpoints(&self) -> (r: Vec<u16>)
        requires
            self.wf(),
        ensures
            r@ == self@.breakpoints,
    {
        let mut r: Vec<u16> = Vec::new();
        let mut k: usize = 0;
        while k < self.breakpoints.len()
            invariant
                k <= self.breakpoints@.len(),
                r@ == bp_addrs(self.breakpoints@.subrange(0, k as int)),
            decreases self.breakpoints@.len() - k,
        {
            r.push(self.breakpoints[k].addr);
            k = k + 1;
            assert(r@ =~= bp_addrs(self.breakpoints@.subrange(0, k as int)));
        }
        assert(self.breakpoints@.subrange(0, k as int) =~= self.breakpoints@);
        r
    }

    /// Sets the speed factor, in thousandths of normal speed; a zero
    /// factor is refused and changes nothing.
    pub fn set_time_multiplier(&mut self, thousandths: u32) -> (r: bool)
        requires
            old(self).wf(),
        ensures
            final(self).wf(),
            r == (thousandths > 0),
            r ==> final(self)@ == (Chip8View { time_multiplier: thousandths, ..old(self)@ }),
            !r ==> final(self)@ == old(self)@,
    {
        if thousandths == 0 {
            return false;
        }
        self.time_multiplier = thousandths;
        true
    }

    /// Takes the key state the host reports; a fresh press while waiting
    /// for a key ends the wait and stores the lowest freshly pressed key.
    pub fn set_keys(&mut self, keys: [bool; 16])
        requires
            old(self).wf(),
        ensures
            final(self).wf(),
            final(self)@ == (Chip8View { machine: keys_spec(old(self)@.machine, keys@), ..old(self)@ }),
    {
        let mut k: usize = 0;
        while k < 16 && !(keys[k] && !self.machine.key_pressed[k])
            invariant
                *self == *old(self),
                k <= 16,
                first_fresh(self@.machine.keys, keys@, 0) == first_fresh(
                    self@.machine.keys,
                    keys@,
                    k as int,
                ),
            decreases 16 - k,
        {
            k = k + 1;
        }
        if self.machine.keypress_halt && k < 16 {
            let target = self.machine.keypress_reg as usize;
            self.machine.reg[target] = k as u8;
            self.machine.keypress_halt = false;
        }
        self.machine.key_pressed = keys;
    }

    /// One 60 Hz timer tick: each nonzero timer counts down by one.
    pub fn tick_timers(&mut self)
        requires
            old(self).wf(),
        ensures
            final(self).wf(),
            final(self)@ == (Chip8View { machine: tick_spec(old(self)@.machine), ..old(self)@ }),
    {
        if self.machine.delay_timer > 0 {
            self.machine.delay_timer = self.machine.delay_timer - 1;
        }
        if self.machine.sound_timer > 0 {
            self.machine.sound_timer = self.machine.sound_timer - 1;
        }
    }

    /// A copy of the machine state: everything but the breakpoints, the
    /// speed and the quirks.
    pub fn snapshot(&self) -> (r: Machine)
        requires
            self.wf(),
        ensures
            r.wf(),
            r@ == self@.machine,
    {
        self.machine
    }

    /// Puts back a machine state taken by `snapshot`.
    pub fn restore(&mut self, snapshot: &Machine)
        requires
            old(self).wf(),
            snapshot.wf(),
        ensures
            final(self).wf(),
            final(self)@ == (Chip8View { machine: snapshot@, ..old(self)@ }),
    {
        self.machine = *snapshot;
    }

    /// The program counter.
    pub fn pc(&self) -> (r: u16)
        ensures
            r == self@.machine.pc,
    {
        self.machine.pc
    }

    /// Register `VI`.
    pub fn reg(&self, i: usize) -> (r: u8)
        requires
            i < 16,
        ensures
            r == self@.machine.reg[i as int],
    {
        self.machine.reg[i]
    }

    /// The index register.
    pub fn addr(&self) -> (r: u16)
        ensures
            r == self@.machine.addr,
    {
        self.machine.addr
    }

    /// The delay timer.
    pub fn delay_timer(&self) -> (r: u8)
        ensures
            r == self@.machine.delay_timer,
    {
        self.machine.delay_timer
    }

    /// The sound timer.
    pub fn sound_timer(&self) -> (r: u8)
        ensures
            r == self@.machine.sound_timer,
    {
        self.machine.sound_timer
    }

    /// Whether key `k` is down.
    pub fn key_pressed(&self, k: usize) -> (r: bool)
        requires
            k < 16,
        ensures
            r == self@.machine.keys[k as int],
    {
        self.machine.key_pressed[k]
    }

    /// The screen, row by row; pixel `(x, y)` is at index `y * 64 + x`.
    pub fn screen(&self) -> (r: &[bool; 2048])
        ensures
            r@ == self@.machine.screen,
    {
        &self.machine.screen
    }

    /// Pixel `(x, y)` of the screen.
    pub fn pixel(&self, x: usize, y: usize) -> (r: bool)
        requires
            x < SCREEN_WIDTH,
            y < SCREEN_HEIGHT,
        ensures
            r == self@.machine.screen[y * 64 + x],
    {
        self.machine.screen[y * 64 + x]
    }

    /// Whether execution is stopped.
    pub fn is_stopped(&self) -> (r: bool)
        ensures
            r == self@.machine.stop,
    {
        self.machine.stop
    }

    /// Instructions still to run before a requested stop; 0 when none is
    /// requested.
    pub fn steps_to_stop(&self) -> (r: u16)
        ensures
            r == self@.machine.steps_to_stop,
    {
        self.machine.steps_to_stop
    }

    /// Whether execution waits for a key press.
    pub fn is_waiting_for_key(&self) -> (r: bool)
        ensures
            r == self@.machine.keypress_halt,
    {
        self.machine.keypress_halt
    }

    /// Number of return addresses on the stack.
    pub fn stack_depth(&self) -> (r: usize)
        requires
            self.wf(),
        ensures
            r == self@.machine.stack.len(),
    {
        self.machine.stack.len()
    }

    /// The memory.
    pub fn memory(&self) -> (r: &Memory)
        ensures
            r@ == self@.machine.memory,
    {
        &self.machine.memory
    }

    /// The speed factor, in thousandths of normal speed.
    pub fn time_multiplier(&self) -> (r: u32)
        ensures
            r == self@.time_multiplier,
    {
        self.time_multiplier
    }

    /// The quirks chosen at construction.
    pub fn quirks(&self) -> (r: QuirksConfig)
        ensures
            r == self@.quirks,
    {
        self.quirks
    }
}


fn reg_line_string(i: usize, v: u8) -> (r: String)
    requires
        i < 16,
    ensures
        r@ == reg_line(i as int, v),
{
    let mut s = String::new();
    s.append("V");
    s.append(hex_string(i as u64, 0).as_str());
    s.append(": ");
    s.append(dec_string(v as u64, 3).as_str());
    s.append(" 0x");
    s.append(hex_string(v as u64, 2).as_str());
    if i % 2 == 0 {
        s.append("  |  ");
    } else {
        s.append("\n");
    }
    assert(s@ =~= reg_line(i as int, v));
    s
}

impl Chip8State {
    #[verifier::rlimit(30)]
    fn listing_line_string(&self, k: usize) -> (r: String)
        requires
            self.wf(),
            k < LISTING_LINES,
        ensures
            r@ == listing_line(self@.machine, k as int),
    {
        let mut s = String::new();
        let pc = self.machine.pc as usize;
        if pc + 2 * k < 6 || pc + 2 * k - 6 >= MEMORY_SIZE - 1 {
            s.append("\n");
        } else {
            let a = pc + 2 * k - 6;
            let word = self.machine.memory.memory[a] as u16 * 256
                + self.machine.memory.memory[a + 1] as u16;
            if k == 3 {
                s.append("--->  ");
            }
            s.append(hex_string(a as u64, 4).as_str());
            s.append(":\t");
            s.append(hex_string(word as u64, 4).as_str());
            s.append(" ");
            s.append(disassemble(word).as_str());
            s.append("\n");
        }
        assert(s@ =~= listing_line(self@.machine, k as int));
        s
    }

    /// The state listing for a debugger.
    #[verifier::rlimit(30)]
    pub fn get_state_string(&self) -> (r: String)
        requires
            self.wf(),
        ensures
            r@ == state_text(self@.machine),
    {
        let mut s = String::new();
        s.append("pc: ");
        s.append(dec_string(self.machine.pc as u64, 0).as_str());
        s.append("\n");
        let ghost head = s@;
        let mut i: usize = 0;
        while i < 16
            invariant
                i <= 16,
                s@ == head + regs_text(self@.machine.reg, i as int),
            decreases 16 - i,
        {
            let line = reg_line_string(i, self.machine.reg[i]);
            s.append(line.as_str());
            i = i + 1;
            assert(s@ =~= head + regs_text(self@.machine.reg, i as int));
        }
        s.append("I: 0x");
        s.append(hex_string(self.machine.addr as u64, 4).as_str());
        s.append("\n");
        s.append("delay_timer: ");
        s.append(dec_string(self.machine.delay_timer as u64, 3).as_str());
        s.append("\n");
        s.append("sound_timer: ");
        s.append(dec_string(self.machine.sound_timer as u64, 3).as_str());
        s.append("\n");
        assert(s@ =~= state_text(self@.machine));
        s
    }

    /// The disassembly listing around the program counter: one line per
    /// word from six bytes before it to eighteen bytes after it, the
    /// current one marked with an arrow.
    #[verifier::rlimit(30)]
    pub fn get_disassembly_string(&self) -> (r: String)
        requires
            self.wf(),
        ensures
            r@ == listing_text(self@.machine, LISTING_LINES as int),
    {
        let mut s = String::new();
        let mut k: usize = 0;
        while k < LISTING_LINES
            invariant
                self.wf(),
                k <= LISTING_LINES,
                s@ == listing_text(self@.machine, k as int),
            decreases LISTING_LINES - k,
        {
            let line = self.listing_line_string(k);
            s.append(line.as_str());
            k = k + 1;
            assert(s@ =~= listing_text(self@.machine, k as int));
        }
        s
    }
}

} // verus!
