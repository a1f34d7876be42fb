use yayachip8rsemu::disasm::{disassemble, disassemble_image, find_instruction_func, Instruction, InstructionType};
use yayachip8rsemu::quirks::QuirksConfig;
use yayachip8rsemu::state::Chip8State;

#[test]
fn decoder_classifies() {
    assert_eq!(find_instruction_func(0x00E0), InstructionType::ClearDisplay);
    assert_eq!(find_instruction_func(0x00EE), InstructionType::ReturnFromSubroutine);
    assert_eq!(find_instruction_func(0x0123), InstructionType::CallRca1802CodeRoutine);
    assert_eq!(find_instruction_func(0x5121), InstructionType::BadInstruction);
    assert_eq!(find_instruction_func(0x8128), InstructionType::BadInstruction);
    assert_eq!(find_instruction_func(0x812E), InstructionType::LshReg);
    assert_eq!(find_instruction_func(0x9120), InstructionType::SkipRegsNeq);
    assert_eq!(find_instruction_func(0xE19E), InstructionType::SkipIfPressed);
    assert_eq!(find_instruction_func(0xE1A1), InstructionType::SkipIfNotPressed);
    assert_eq!(find_instruction_func(0xF115), InstructionType::SetDelayTimer);
    assert_eq!(find_instruction_func(0xF165), InstructionType::RegLoad);
    assert_eq!(find_instruction_func(0xF166), InstructionType::BadInstruction);
}

#[test]
fn instruction_text() {
    let i = Instruction::from(0x6A05);
    assert_eq!(i.instruction_type, InstructionType::SetVal);
    assert_eq!(i.args, "reg[10] 05");
    assert_eq!(i.to_string(), "set reg[10] 05");
    assert_eq!(disassemble(0x1234), "jmp 0234");
    assert_eq!(disassemble(0xD125), "draw reg[1] reg[2] 05");
    assert_eq!(disassemble(0xB123), "jmp 0123 + reg[0]");
    assert_eq!(disassemble(0xA2F0), "set I 02f0");
    assert_eq!(disassemble(0x8AB4), "add reg[10] reg[11]");
    assert_eq!(disassemble(0x9AB0), "skip_neq reg[10] reg[11]");
    assert_eq!(disassemble(0xFB33), "store_bcd reg[11]");
    assert_eq!(disassemble(0x00E0), "clear_display ");
    assert_eq!(disassemble(0xFFFF), "bad_instruction ");
}

#[test]
fn image_listing() {
    let image = vec![0x00, 0xE0, 0x6A, 0x05, 0x7A];
    let lines = disassemble_image(&image, 0, 0);
    assert_eq!(lines, vec!["0000:\t00e0 clear_display ".to_string(), "0002:\t6a05 set reg[10] 05".to_string()]);
    assert_eq!(disassemble_image(&image, 0, 1).len(), 1);
    assert_eq!(disassemble_image(&image, 2, 0), vec!["0002:\t6a05 set reg[10] 05".to_string()]);
    assert!(disassemble_image(&image, 9, 0).is_empty());
}

#[test]
fn state_listing() {
    let mut s = Chip8State::create(&vec![0x6B, 0xC8, 0xA1, 0x23], 0x200, 0x200, QuirksConfig::get_chip8()).unwrap();
    s.emulate_instruction().unwrap();
    s.emulate_instruction().unwrap();
    let text = s.get_state_string();
    let lines: Vec<&str> = text.lines().collect();
    assert_eq!(lines[0], "pc: 516");
    assert_eq!(lines[1], "V0:   0 0x00  |  V1:   0 0x00");
    assert_eq!(lines[6], "Va:   0 0x00  |  Vb: 200 0xc8");
    assert_eq!(lines[9], "I: 0x0123");
    assert_eq!(lines[10], "delay_timer:   0");
    assert_eq!(lines[11], "sound_timer:   0");
    assert_eq!(lines.len(), 12);
}

#[test]
fn disassembly_listing() {
    let s = Chip8State::create(&vec![0x00, 0xE0, 0x6A, 0x05], 0x200, 0x200, QuirksConfig::get_chip8()).unwrap();
    let text = s.get_disassembly_string();
    let lines: Vec<&str> = text.split('\n').collect();
    assert_eq!(lines.len(), 14);
    assert_eq!(lines[0], "01fa:\t0000 call_rca1802_code_routine ");
    assert_eq!(lines[3], "--->  0200:\t00e0 clear_display ");
    assert_eq!(lines[4], "0202:\t6a05 set reg[10] 05");
    let t = Chip8State::create(&vec![], 0, 0, QuirksConfig::get_chip8()).unwrap();
    let text = t.get_disassembly_string();
    assert!(text.starts_with("\n\n\n--->  0000:\t0000 "));
}
