use chip8::cpu::{Address, Instruction, Register};
use chip8::input::Key;
use chip8::output::Screen;

#[test]
fn mnemonics_of_instructions() {
    let r = Register::new;
    assert_eq!(Instruction::Clear.mnemonic(), "CLS");
    assert_eq!(Instruction::Return.mnemonic(), "RET");
    assert_eq!(Instruction::Jump(Address::new(0xABC)).mnemonic(), "JUMP $ABC");
    assert_eq!(Instruction::Call(Address::new(0x00F)).mnemonic(), "CALL $00F");
    assert_eq!(Instruction::SetIdx(Address::new(0x5)).mnemonic(), "MOV I, $005");
    assert_eq!(Instruction::JumpV0(Address::new(0x123)).mnemonic(), "JUMP V0 + $123");
    assert_eq!(Instruction::EqNum(r(10), 255).mnemonic(), "SEQ V10, 255");
    assert_eq!(Instruction::NeqNum(r(1), 0).mnemonic(), "SNE V1, 0");
    assert_eq!(Instruction::SetNum(r(1), 42).mnemonic(), "MOV V1, 42");
    assert_eq!(Instruction::Add(r(1), r(15)).mnemonic(), "ADD V1, V15");
    assert_eq!(Instruction::Subb(r(2), r(3)).mnemonic(), "SUBB V2, V3");
    assert_eq!(Instruction::Draw(r(1), r(2), 5).mnemonic(), "DRAW V1, V2, 5");
    assert_eq!(Instruction::KeyEq(Key::new(3)).mnemonic(), "SEQ K3");
    assert_eq!(Instruction::KeyNeq(Key::new(12)).mnemonic(), "SNE K12");
    assert_eq!(Instruction::GetDelay(r(4)).mnemonic(), "MOV V4, DT");
    assert_eq!(Instruction::WaitKey(r(4)).mnemonic(), "WAIT K4");
    assert_eq!(Instruction::SetSound(r(4)).mnemonic(), "MOV ST, V4");
    assert_eq!(Instruction::SetSprite(r(9)).mnemonic(), "CHAR V9");
    assert_eq!(Instruction::StoreBcd(r(9)).mnemonic(), "BCD V9");
    assert_eq!(Instruction::Store(r(3)).mnemonic(), "MOV [I], ..V3");
    assert_eq!(Instruction::Load(r(3)).mnemonic(), "MOV ..V3, [I]");
}

#[test]
fn render_blank_screen() {
    let text = Screen::new().render();
    let lines: Vec<&str> = text.lines().collect();
    assert_eq!(lines.len(), 18);
    assert_eq!(lines[0], format!(" {} ", "\u{2581}".repeat(64)));
    assert_eq!(lines[1], format!("\u{2595}{}\u{258F}", " ".repeat(64)));
    assert_eq!(lines[17], format!(" {} ", "\u{2594}".repeat(64)));
    assert!(text.ends_with('\n'));
}

#[test]
fn render_shows_two_rows_per_cell() {
    let mut s = Screen::new();
    // Column 0: rows 0 and 1; column 1: row 0; column 2: row 1.
    s.draw(0, 0, &[0b1100_0000, 0b1010_0000]);
    let text = s.render();
    let first: Vec<char> = text.lines().nth(1).unwrap().chars().collect();
    assert_eq!(first.len(), 66);
    assert_eq!(first[1], '\u{2588}');
    assert_eq!(first[2], '\u{2580}');
    assert_eq!(first[3], '\u{2584}');
    assert_eq!(first[4], ' ');
}
