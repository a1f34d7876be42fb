use vstd::prelude::*;
use vstd::string::*;
use crate::text::{dec_string, dec_text, hex_string, hex_text};

verus! {

/// The operation an instruction word stands for.
#[derive(Debug, Clone, Copy, PartialEq, Eq, Structural)]
pub enum InstructionType {
    CallRca1802CodeRoutine,
    ClearDisplay,
    ReturnFromSubroutine,
    Jmp,
    Call,
    SkipEq,
    SkipNeq,
    SkipRegsEq,
    SetVal,
    AddVal,
    SetReg,
    OrReg,
    AndReg,
    XorReg,
    AddReg,
    SubReg,
    RshReg,
    ReverseSubReg,
    LshReg,
    SkipRegsNeq,
    SetAddr,
    JmpPlus,
    Rand,
    Draw,
    SkipIfPressed,
    SkipIfNotPressed,
    GetDelayTimer,
    GetKeypress,
    SetDelayTimer,
    SetSoundTimer,
    AddToAddr,
    SetAddrToSpriteAddr,
    StoreBcd,
    RegDump,
    RegLoad,
    BadInstruction,
}

/// Leading nibble of an instruction word.
pub open spec fn op_of(inst: u16) -> u16 {
    inst / 0x1000
}

/// Second nibble: the `X` register operand.
pub open spec fn x_of(inst: u16) -> u16 {
    (inst / 0x100) % 0x10
}

/// Third nibble: the `Y` register operand.
pub open spec fn y_of(inst: u16) -> u16 {
    (inst / 0x10) % 0x10
}

/// Trailing nibble.
pub open spec fn n_of(inst: u16) -> u16 {
    inst % 0x10
}

/// Trailing byte.
pub open spec fn nn_of(inst: u16) -> u16 {
    inst % 0x100
}

/// Trailing twelve bits: an address.
pub open spec fn nnn_of(inst: u16) -> u16 {
    inst % 0x1000
}

/// The classification of an instruction word, shared by the executor and
/// the disassembler.
pub open spec fn decode(inst: u16) -> InstructionType {
    let op = op_of(inst);
    let n = n_of(inst);
    let nn = nn_of(inst);
    if inst == 0x00e0 {
        InstructionType::ClearDisplay
    } else if inst == 0x00ee {
        InstructionType::ReturnFromSubroutine
    } else if op == 0x0 {
        InstructionType::CallRca1802CodeRoutine
    } else if op == 0x1 {
        InstructionType::Jmp
    } else if op == 0x2 {
        InstructionType::Call
    } else if op == 0x3 {
        InstructionType::SkipEq
    } else if op == 0x4 {
        InstructionType::SkipNeq
    } else if op == 0x5 && n == 0x0 {
        InstructionType::SkipRegsEq
    } else if op == 0x6 {
        InstructionType::SetVal
    } else if op == 0x7 {
        InstructionType::AddVal
    } else if op == 0x8 && n == 0x0 {
        InstructionType::SetReg
    } else if op == 0x8 && n == 0x1 {
        InstructionType::OrReg
    } else if op == 0x8 && n == 0x2 {
        InstructionType::AndReg
    } else if op == 0x8 && n == 0x3 {
        InstructionType::XorReg
    } else if op == 0x8 && n == 0x4 {
        InstructionType::AddReg
    } else if op == 0x8 && n == 0x5 {
        InstructionType::SubReg
    } else if op == 0x8 && n == 0x6 {
        InstructionType::RshReg
    } else if op == 0x8 && n == 0x7 {
        InstructionType::ReverseSubReg
    } else if op == 0x8 && n == 0xe {
        InstructionType::LshReg
    } else if op == 0x9 && n == 0x0 {
        InstructionType::SkipRegsNeq
    } else if op == 0xa {
        InstructionType::SetAddr
    } else if op == 0xb {
        InstructionType::JmpPlus
    } else if op == 0xc {
        InstructionType::Rand
    } else if op == 0xd {
        InstructionType::Draw
    } else if op == 0xe && nn == 0x9e {
        InstructionType::SkipIfPressed
    } else if op == 0xe && nn == 0xa1 {
        InstructionType::SkipIfNotPressed
    } else if op == 0xf && nn == 0x07 {
        InstructionType::GetDelayTimer
    } else if op == 0xf && nn == 0x0a {
        InstructionType::GetKeypress
    } else if op == 0xf && nn == 0x15 {
        InstructionType::SetDelayTimer
    } else if op == 0xf && nn == 0x18 {
        InstructionType::SetSoundTimer
    } else if op == 0xf && nn == 0x1e {
        InstructionType::AddToAddr
    } else if op == 0xf && nn == 0x29 {
        InstructionType::SetAddrToSpriteAddr
    } else if op == 0xf && nn == 0x33 {
        InstructionType::StoreBcd
    } else if op == 0xf && nn == 0x55 {
        InstructionType::RegDump
    } else if op == 0xf && nn == 0x65 {
        InstructionType::RegLoad
    } else {
        InstructionType::BadInstruction
    }
}

/// Classifies an instruction word.
pub fn find_instruction_func(inst: u16) -> (r: InstructionType)
    ensures
        r == decode(inst),
{
    let op = inst / 0x1000;
    let n = inst % 0x10;
    let nn = inst % 0x100;
    if inst == 0x00e0 {
        InstructionType::ClearDisplay
    } else if inst == 0x00ee {
        InstructionType::ReturnFromSubroutine
    } else if op == 0x0 {
        InstructionType::CallRca1802CodeRoutine
    } else if op == 0x1 {
        InstructionType::Jmp
    } else if op == 0x2 {
        InstructionType::Call
    } else if op == 0x3 {
        InstructionType::SkipEq
    } else if op == 0x4 {
        InstructionType::SkipNeq
    } else if op == 0x5 && n == 0x0 {
        InstructionType::SkipRegsEq
    } else if op == 0x6 {
        InstructionType::SetVal
    } else if op == 0x7 {
        InstructionType::AddVal
    } else if op == 0x8 && n == 0x0 {
        InstructionType::SetReg
    } else if op == 0x8 && n == 0x1 {
        InstructionType::OrReg
    } else if op == 0x8 && n == 0x2 {
        InstructionType::AndReg
    } else if op == 0x8 && n == 0x3 {
        InstructionType::XorReg
    } else if op == 0x8 && n == 0x4 {
        InstructionType::AddReg
    } else if op == 0x8 && n == 0x5 {
        InstructionType::SubReg
    } else if op == 0x8 && n == 0x6 {
        InstructionType::RshReg
    } else if op == 0x8 && n == 0x7 {
        InstructionType::ReverseSubReg
    } else if op == 0x8 && n == 0xe {
        InstructionType::LshReg
    } else if op == 0x9 && n == 0x0 {
        InstructionType::SkipRegsNeq
    } else if op == 0xa {
        InstructionType::SetAddr
    } else if op == 0xb {
        InstructionType::JmpPlus
    } else if op == 0xc {
        InstructionType::Rand
    } else if op == 0xd {
        InstructionType::Draw
    } else if op == 0xe && nn == 0x9e {
        InstructionType::SkipIfPressed
    } else if op == 0xe && nn == 0xa1 {
        InstructionType::SkipIfNotPressed
    } else if op == 0xf && nn == 0x07 {
        InstructionType::GetDelayTimer
    } else if op == 0xf && nn == 0x0a {
        InstructionType::GetKeypress
    } else if op == 0xf && nn == 0x15 {
        InstructionType::SetDelayTimer
    } else if op == 0xf && nn == 0x18 {
        InstructionType::SetSoundTimer
    } else if op == 0xf && nn == 0x1e {
        InstructionType::AddToAddr
    } else if op == 0xf && nn == 0x29 {
        InstructionType::SetAddrToSpriteAddr
    } else if op == 0xf && nn == 0x33 {
        InstructionType::StoreBcd
    } else if op == 0xf && nn == 0x55 {
        InstructionType::RegDump
    } else if op == 0xf && nn == 0x65 {
        InstructionType::RegLoad
    } else {
        InstructionType::BadInstruction
    }
}

/// The mnemonic shown for each operation.
pub open spec fn mnemonic(t: InstructionType) -> Seq<char> {
    match t {
        InstructionType::CallRca1802CodeRoutine => "call_rca1802_code_routine"@,
        InstructionType::ClearDisplay => "clear_display"@,
        InstructionType::ReturnFromSubroutine => "return"@,
        InstructionType::Jmp => "jmp"@,
        InstructionType::Call => "call"@,
        InstructionType::SkipEq => "skip_eq"@,
        InstructionType::SkipNeq => "skip_neq"@,
        InstructionType::SkipRegsEq => "skip_eq"@,
        InstructionType::SetVal => "set"@,
        InstructionType::AddVal => "add"@,
        InstructionType::SetReg => "set"@,
        InstructionType::OrReg => "or"@,
        InstructionType::AndReg => "and"@,
        InstructionType::XorReg => "xor"@,
        InstructionType::AddReg => "add"@,
        InstructionType::SubReg => "sub"@,
        InstructionType::RshReg => "rsh"@,
        InstructionType::ReverseSubReg => "reverse_sub"@,
        InstructionType::LshReg => "lsh"@,
        InstructionType::SkipRegsNeq => "skip_neq"@,
        InstructionType::SetAddr => "set"@,
        InstructionType::JmpPlus => "jmp"@,
        InstructionType::Rand => "rand"@,
        InstructionType::Draw => "draw"@,
        InstructionType::SkipIfPressed => "skip_if_pressed"@,
        InstructionType::SkipIfNotPressed => "skip_if_not_pressed"@,
        InstructionType::GetDelayTimer => "get_delay_timer"@,
        InstructionType::GetKeypress => "get_keypress"@,
        InstructionType::SetDelayTimer => "set_delay_timer"@,
        InstructionType::SetSoundTimer => "set_sound_timer"@,
        InstructionType::AddToAddr => "add"@,
        InstructionType::SetAddrToSpriteAddr => "set_addr_to_sprite_addr"@,
        InstructionType::StoreBcd => "store_bcd"@,
        InstructionType::RegDump => "reg_dump"@,
        InstructionType::RegLoad => "reg_load"@,
        InstructionType::BadInstruction => "bad_instruction"@,
    }
}

impl InstructionType {
    /// The mnemonic of `instruction_type`.
    pub fn get_string(instruction_type: InstructionType) -> (r: &'static str)
        ensures
            r@ == mnemonic(instruction_type),
    {
        match instruction_type {
            InstructionType::CallRca1802CodeRoutine => "call_rca1802_code_routine",
            InstructionType::ClearDisplay => "clear_display",
            InstructionType::ReturnFromSubroutine => "return",
            InstructionType::Jmp => "jmp",
            InstructionType::Call => "call",
            InstructionType::SkipEq => "skip_eq",
            InstructionType::SkipNeq => "skip_neq",
            InstructionType::SkipRegsEq => "skip_eq",
            InstructionType::SetVal => "set",
            InstructionType::AddVal => "add",
            InstructionType::SetReg => "set",
            InstructionType::OrReg => "or",
            InstructionType::AndReg => "and",
            InstructionType::XorReg => "xor",
            InstructionType::AddReg => "add",
            InstructionType::SubReg => "sub",
            InstructionType::RshReg => "rsh",
            InstructionType::ReverseSubReg => "reverse_sub",
            InstructionType::LshReg => "lsh",
            InstructionType::SkipRegsNeq => "skip_neq",
            InstructionType::SetAddr => "set",
            InstructionType::JmpPlus => "jmp",
            InstructionType::Rand => "rand",
            InstructionType::Draw => "draw",
            InstructionType::SkipIfPressed => "skip_if_pressed",
            InstructionType::SkipIfNotPressed => "skip_if_not_pressed",
            InstructionType::GetDelayTimer => "get_delay_timer",
            InstructionType::GetKeypress => "get_keypress",
            InstructionType::SetDelayTimer => "set_delay_timer",
            InstructionType::SetSoundTimer => "set_sound_timer",
            InstructionType::AddToAddr => "add",
            InstructionType::SetAddrToSpriteAddr => "set_addr_to_sprite_addr",
            InstructionType::StoreBcd => "store_bcd",
            InstructionType::RegDump => "reg_dump",
            InstructionType::RegLoad => "reg_load",
            InstructionType::BadInstruction => "bad_instruction",
        }
    }
}

/// `reg[i]`: the name of a register in operand text.
pub open spec fn reg_text(i: u16) -> Seq<char> {
    "reg["@ + dec_text(i as nat, 0) + "]"@
}

/// The operand text of an instruction word.
pub open spec fn args_text(inst: u16) -> Seq<char> {
    let x = reg_text(x_of(inst));
    let y = reg_text(y_of(inst));
    match decode(inst) {
        InstructionType::CallRca1802CodeRoutine
        | InstructionType::ClearDisplay
        | InstructionType::ReturnFromSubroutine
        | InstructionType::BadInstruction => Seq::empty(),
        InstructionType::Jmp | InstructionType::Call => hex_text(nnn_of(inst) as nat, 4),
        InstructionType::SkipEq
        | InstructionType::SkipNeq
        | InstructionType::SetVal
        | InstructionType::AddVal
        | InstructionType::Rand => x + " "@ + hex_text(nn_of(inst) as nat, 2),
        InstructionType::SkipRegsEq
        | InstructionType::SkipRegsNeq
        | InstructionType::SetReg
        | InstructionType::OrReg
        | InstructionType::AndReg
        | InstructionType::XorReg
        | InstructionType::AddReg
        | InstructionType::SubReg
        | InstructionType::ReverseSubReg => x + " "@ + y,
        InstructionType::SetAddr => "I "@ + hex_text(nnn_of(inst) as nat, 4),
        InstructionType::JmpPlus => hex_text(nnn_of(inst) as nat, 4) + " + reg[0]"@,
        InstructionType::Draw => x + " "@ + y + " "@ + hex_text(n_of(inst) as nat, 2),
        _ => x,
    }
}

/// The listing text of an instruction word: mnemonic, a space, operands.
pub open spec fn instruction_text(inst: u16) -> Seq<char> {
    mnemonic(decode(inst)) + " "@ + args_text(inst)
}

/// A decoded instruction with its operands rendered as text.
#[derive(Debug)]
pub struct Instruction {
    pub instruction_type: InstructionType,
    pub args: String,
}

fn reg_string(i: u16) -> (r: String)
    ensures
        r@ == reg_text(i),
{
    let mut s = String::new();
    s.append("reg[");
    let d = dec_string(i as u64, 0);
    s.append(d.as_str());
    s.append("]");
    s
}

impl Instruction {
    /// Decodes `inst` and renders its operands.
    pub fn from(inst: u16) -> (r: Instruction)
        ensures
            r.instruction_type == decode(inst),
            r.args@ == args_text(inst),
    {
        let t = find_instruction_func(inst);
        let x = reg_string((inst / 0x100) % 0x10);
        let y = reg_string((inst / 0x10) % 0x10);
        let mut args = String::new();
        match t {
            InstructionType::CallRca1802CodeRoutine
            | InstructionType::ClearDisplay
            | InstructionType::ReturnFromSubroutine
            | InstructionType::BadInstruction => {},
            InstructionType::Jmp | InstructionType::Call => {
                let a = hex_string((inst % 0x1000) as u64, 4);
                args.append(a.as_str());
            },
            InstructionType::SkipEq
            | InstructionType::SkipNeq
            | InstructionType::SetVal
            | InstructionType::AddVal
            | InstructionType::Rand => {
                let v = hex_string((inst % 0x100) as u64, 2);
                args.append(x.as_str());
                args.append(" ");
                args.append(v.as_str());
            },
            InstructionType::SkipRegsEq
            | InstructionType::SkipRegsNeq
            | InstructionType::SetReg
            | InstructionType::OrReg
            | InstructionType::AndReg
            | InstructionType::XorReg
            | InstructionType::AddReg
            | InstructionType::SubReg
            | InstructionType::ReverseSubReg => {
                args.append(x.as_str());
                args.append(" ");
                args.append(y.as_str());
            },
            InstructionType::SetAddr => {
                let a = hex_string((inst % 0x1000) as u64, 4);
                args.append("I ");
                args.append(a.as_str());
            },
            InstructionType::JmpPlus => {
                let a = hex_string((inst % 0x1000) as u64, 4);
                args.append(a.as_str());
                args.append(" + reg[0]");
            },
            InstructionType::Draw => {
                let v = hex_string((inst % 0x10) as u64, 2);
                args.append(x.as_str());
                args.append(" ");
                args.append(y.as_str());
                args.append(" ");
                args.append(v.as_str());
            },
            _ => {
                args.append(x.as_str());
            },
        }
        Instruction { instruction_type: t, args }
    }

    /// The listing text: mnemonic, a space, operands.
    pub fn to_string(&self) -> (r: String)
        ensures
            r@ == mnemonic(self.instruction_type) + " "@ + self.args@,
    {
        let mut s = String::new();
        s.append(InstructionType::get_string(self.instruction_type));
        s.append(" ");
        s.append(self.args.as_str());
        s
    }
}

/// The listing text of `inst`.
pub fn disassemble(inst: u16) -> (r: String)
    ensures
        r@ == instruction_text(inst),
{
    Instruction::from(inst).to_string()
}


/// Number of whole words in `len` bytes from offset `start`.
pub open spec fn words_from(len: int, start: int) -> int {
    if len > start {
        (len - start) / 2
    } else {
        0
    }
}

/// Number of lines listed: every whole word from `start`, or at most
/// `amount` of them when `amount` is not zero.
pub open spec fn image_line_count(len: int, start: int, amount: int) -> int {
    let avail = words_from(len, start);
    if amount == 0 || avail <= amount {
        avail
    } else {
        amount
    }
}

/// The listing line for the word at offset `off` of `image`: offset,
/// word and listing text.
pub open spec fn image_line(image: Seq<u8>, off: int) -> Seq<char> {
    let word = (image[off] * 256 + image[off + 1]) as u16;
    hex_text(off as nat, 4) + ":\t"@ + hex_text(word as nat, 4) + " "@ + instruction_text(word)
}

/// Lists a program image word by word from offset `start`: every whole
/// word, or the first `amount` of them when `amount` is not zero. A
/// trailing odd byte is not listed.
pub fn disassemble_image(image: &Vec<u8>, start: usize, amount: usize) -> (r: Vec<String>)
    ensures
        r@.len() == image_line_count(image@.len() as int, start as int, amount as int),
        forall|k: int|
            0 <= k < r@.len() ==> #[trigger] r@[k]@ == image_line(image@, start + 2 * k),
{
    let mut lines: Vec<String> = Vec::new();
    let mut off: usize = start;
    let ghost count = image_line_count(image@.len() as int, start as int, amount as int);
    while off < image.len() && image.len() - off >= 2 && (amount == 0 || lines.len() < amount)
        invariant
            start <= off,
            off == start + 2 * lines@.len(),
            lines@.len() <= count,
            count == image_line_count(image@.len() as int, start as int, amount as int),
            forall|k: int|
                0 <= k < lines@.len() ==> #[trigger] lines@[k]@ == image_line(image@, start + 2 * k),
        decreases image@.len() - off,
    {
        let word = image[off] as u16 * 256 + image[off + 1] as u16;
        let mut line = String::new();
        line.append(hex_string(off as u64, 4).as_str());
        line.append(":\t");
        line.append(hex_string(word as u64, 4).as_str());
        line.append(" ");
        line.append(disassemble(word).as_str());
        assert(line@ =~= image_line(image@, off as int));
        lines.push(line);
        off = off + 2;
    }
    lines
}

} // verus!
