use chip8::cpu::{Address, Instruction, Register};
use chip8::input::Key;
use chip8::system::{Fault, System};

fn reg(x: u8) -> Register {
    Register::new(x)
}

fn run(sys: &mut System, cycles: usize) {
    for _ in 0..cycles {
        sys.step(0).unwrap();
    }
}

#[test]
fn new_loads_font_and_program() {
    let sys = System::new(&[0x12, 0x34]);
    assert_eq!(sys.pc().get(), 0x200);
    assert_eq!(sys.index().get(), 0);
    assert_eq!(sys.stack_depth(), 0);
    assert_eq!(sys.memory().read16(Address::new(0x200)), 0x1234);
    assert_eq!(sys.memory().read(Address::new(0x50), 5), &[0xF0, 0x90, 0x90, 0x90, 0xF0]);
    assert_eq!(sys.memory().read(Address::new(0x9B), 5), &[0xF0, 0x80, 0xF0, 0x80, 0x80]);
    assert!(!sys.get_sound());
}

#[test]
fn add_sets_carry() {
    let mut sys = System::new(&[]);
    sys.execute(Instruction::SetNum(reg(1), 0xFF), 0).unwrap();
    sys.execute(Instruction::SetNum(reg(2), 0x01), 0).unwrap();
    sys.execute(Instruction::Add(reg(1), reg(2)), 0).unwrap();
    assert_eq!(sys.register(reg(1)), 0x00);
    assert_eq!(sys.register(reg(0xF)), 1);
    sys.execute(Instruction::Add(reg(2), reg(2)), 0).unwrap();
    assert_eq!(sys.register(reg(2)), 0x02);
    assert_eq!(sys.register(reg(0xF)), 0);
}

#[test]
fn sub_flags_borrow() {
    let mut sys = System::new(&[]);
    sys.execute(Instruction::SetNum(reg(1), 0x01), 0).unwrap();
    sys.execute(Instruction::SetNum(reg(2), 0x02), 0).unwrap();
    sys.execute(Instruction::Sub(reg(1), reg(2)), 0).unwrap();
    assert_eq!(sys.register(reg(1)), 0xFF);
    assert_eq!(sys.register(reg(0xF)), 0);
    sys.execute(Instruction::Sub(reg(1), reg(2)), 0).unwrap();
    assert_eq!(sys.register(reg(1)), 0xFD);
    assert_eq!(sys.register(reg(0xF)), 1);
}

#[test]
fn subb_subtracts_reversed() {
    let mut sys = System::new(&[]);
    sys.execute(Instruction::SetNum(reg(1), 0x05), 0).unwrap();
    sys.execute(Instruction::SetNum(reg(2), 0x03), 0).unwrap();
    sys.execute(Instruction::Subb(reg(1), reg(2)), 0).unwrap();
    assert_eq!(sys.register(reg(1)), 0xFE);
    assert_eq!(sys.register(reg(0xF)), 0);
}

#[test]
fn shr_shifts_out_low_bit() {
    let mut sys = System::new(&[]);
    sys.execute(Instruction::SetNum(reg(3), 0b0000_0011), 0).unwrap();
    sys.execute(Instruction::Shr(reg(3), reg(4)), 0).unwrap();
    assert_eq!(sys.register(reg(3)), 0b0000_0001);
    assert_eq!(sys.register(reg(0xF)), 1);
}

#[test]
fn shl_shifts_out_high_bit() {
    let mut sys = System::new(&[]);
    sys.execute(Instruction::SetNum(reg(3), 0b1000_0001), 0).unwrap();
    sys.execute(Instruction::Shl(reg(3), reg(4)), 0).unwrap();
    assert_eq!(sys.register(reg(3)), 0b0000_0010);
    assert_eq!(sys.register(reg(0xF)), 1);
}

#[test]
fn bitwise_and_add_num() {
    let mut sys = System::new(&[]);
    sys.execute(Instruction::SetNum(reg(0), 0b1100), 0).unwrap();
    sys.execute(Instruction::SetNum(reg(1), 0b1010), 0).unwrap();
    sys.execute(Instruction::Move(reg(2), reg(0)), 0).unwrap();
    sys.execute(Instruction::Or(reg(2), reg(1)), 0).unwrap();
    assert_eq!(sys.register(reg(2)), 0b1110);
    sys.execute(Instruction::Move(reg(2), reg(0)), 0).unwrap();
    sys.execute(Instruction::And(reg(2), reg(1)), 0).unwrap();
    assert_eq!(sys.register(reg(2)), 0b1000);
    sys.execute(Instruction::Move(reg(2), reg(0)), 0).unwrap();
    sys.execute(Instruction::Xor(reg(2), reg(1)), 0).unwrap();
    assert_eq!(sys.register(reg(2)), 0b0110);
    sys.execute(Instruction::SetNum(reg(0xF), 7), 0).unwrap();
    sys.execute(Instruction::AddNum(reg(1), 0xFF), 0).unwrap();
    assert_eq!(sys.register(reg(1)), 0b1001);
    assert_eq!(sys.register(reg(0xF)), 7);
    assert_eq!(sys.pc().get(), 0x200 + 2 * 10);
}

#[test]
fn rand_masks_the_random_byte() {
    let mut sys = System::new(&[]);
    sys.execute(Instruction::Rand(reg(5), 0x0F), 0xAB).unwrap();
    assert_eq!(sys.register(reg(5)), 0x0B);
    sys.execute(Instruction::Rand(reg(5), 0x00), 0xFF).unwrap();
    assert_eq!(sys.register(reg(5)), 0x00);
}

#[test]
fn tick_keeps_rand_within_mask() {
    let mut sys = System::new(&[0xC5, 0x03, 0xC6, 0x00]);
    sys.tick().unwrap();
    sys.tick().unwrap();
    assert!(sys.register(reg(5)) <= 3);
    assert_eq!(sys.register(reg(6)), 0);
    assert_eq!(sys.pc().get(), 0x204);
}

#[test]
fn skips_move_past_next_instruction() {
    let mut sys = System::new(&[]);
    sys.execute(Instruction::SetNum(reg(1), 7), 0).unwrap();
    assert_eq!(sys.pc().get(), 0x202);
    sys.execute(Instruction::EqNum(reg(1), 7), 0).unwrap();
    assert_eq!(sys.pc().get(), 0x206);
    sys.execute(Instruction::EqNum(reg(1), 8), 0).unwrap();
    assert_eq!(sys.pc().get(), 0x208);
    sys.execute(Instruction::NeqNum(reg(1), 8), 0).unwrap();
    assert_eq!(sys.pc().get(), 0x20C);
    sys.execute(Instruction::Eq(reg(2), reg(3)), 0).unwrap();
    assert_eq!(sys.pc().get(), 0x210);
    sys.execute(Instruction::Neq(reg(1), reg(3)), 0).unwrap();
    assert_eq!(sys.pc().get(), 0x214);
}

#[test]
fn key_skips_test_the_key_held_in_the_register() {
    let mut sys = System::new(&[]);
    sys.execute(Instruction::SetNum(reg(2), 0xA), 0).unwrap();
    sys.execute(Instruction::KeyEq(Key::new(2)), 0).unwrap();
    assert_eq!(sys.pc().get(), 0x204);
    sys.execute(Instruction::KeyNeq(Key::new(2)), 0).unwrap();
    assert_eq!(sys.pc().get(), 0x208);
    sys.update_keypad(Key::new(0xA), true);
    sys.execute(Instruction::KeyEq(Key::new(2)), 0).unwrap();
    assert_eq!(sys.pc().get(), 0x20C);
    sys.execute(Instruction::KeyNeq(Key::new(2)), 0).unwrap();
    assert_eq!(sys.pc().get(), 0x20E);
}

#[test]
fn key_skip_with_no_key_number_faults() {
    let mut sys = System::new(&[]);
    sys.execute(Instruction::SetNum(reg(2), 0x10), 0).unwrap();
    assert_eq!(sys.execute(Instruction::KeyEq(Key::new(2)), 0), Err(Fault::InvalidKey(0x10)));
    assert_eq!(sys.pc().get(), 0x202);
}

#[test]
fn jumps() {
    let mut sys = System::new(&[]);
    sys.execute(Instruction::Jump(Address::new(0x345)), 0).unwrap();
    assert_eq!(sys.pc().get(), 0x345);
    sys.execute(Instruction::SetNum(reg(0), 0x10), 0).unwrap();
    sys.execute(Instruction::JumpV0(Address::new(0x300)), 0).unwrap();
    assert_eq!(sys.pc().get(), 0x310);
    sys.execute(Instruction::SetNum(reg(0), 0xFF), 0).unwrap();
    assert_eq!(
        sys.execute(Instruction::JumpV0(Address::new(0xF01)), 0),
        Err(Fault::AddressOutOfRange)
    );
    assert_eq!(sys.pc().get(), 0x312);
}

#[test]
fn call_then_return_resumes_after_the_call() {
    // 0x200: CALL 0x300; 0x202: MOV V1, 1; ... 0x300: MOV V2, 2; RET
    let mut rom = vec![0u8; 0x102];
    rom[0] = 0x23;
    rom[1] = 0x00;
    rom[2] = 0x61;
    rom[3] = 0x01;
    rom[0x100] = 0x62;
    rom[0x101] = 0x02;
    rom.push(0x00);
    rom.push(0xEE);
    let mut sys = System::new(&rom);
    assert_eq!(sys.stack_depth(), 0);
    sys.step(0).unwrap();
    assert_eq!(sys.pc().get(), 0x300);
    assert_eq!(sys.stack_depth(), 1);
    sys.step(0).unwrap();
    sys.step(0).unwrap();
    assert_eq!(sys.pc().get(), 0x202);
    assert_eq!(sys.stack_depth(), 0);
    sys.step(0).unwrap();
    assert_eq!(sys.register(reg(1)), 1);
    assert_eq!(sys.register(reg(2)), 2);
}

#[test]
fn return_with_empty_stack_faults() {
    let mut sys = System::new(&[0x00, 0xEE]);
    assert_eq!(sys.step(0), Err(Fault::StackUnderflow));
    assert_eq!(sys.pc().get(), 0x200);
}

#[test]
fn illegal_instruction_faults() {
    let mut sys = System::new(&[0x01, 0x23]);
    assert_eq!(sys.step(0), Err(Fault::IllegalInstruction(0x0123)));
    assert_eq!(sys.pc().get(), 0x200);
}

#[test]
fn wait_key_holds_until_a_key_is_pressed() {
    let mut sys = System::new(&[0xF3, 0x0A, 0x00, 0xE0]);
    for _ in 0..5 {
        sys.step(0).unwrap();
        assert_eq!(sys.pc().get(), 0x200);
    }
    sys.update_keypad(Key::new(0xC), true);
    sys.update_keypad(Key::new(0x7), true);
    sys.step(0).unwrap();
    assert_eq!(sys.register(reg(3)), 0x7);
    assert_eq!(sys.pc().get(), 0x202);
}

#[test]
fn delay_timer_counts_down_to_zero() {
    // MOV V0, 5; MOV DT, V0; then wait for a key forever.
    let mut sys = System::new(&[0x60, 0x05, 0xF0, 0x15, 0xF1, 0x0A]);
    run(&mut sys, 2);
    let periods_per_tick = 10_000 / 60;
    // Two cycles have passed: 120 of the 10000 units of a 60 Hz period.
    assert_eq!(sys.delay_timer(), 5);
    run(&mut sys, periods_per_tick - 2);
    assert_eq!(sys.delay_timer(), 5);
    run(&mut sys, 1);
    assert_eq!(sys.delay_timer(), 4);
    // 5 periods in all need ceil(5 * 10000 / 60) = 834 cycles.
    run(&mut sys, 833 - 167);
    assert_eq!(sys.delay_timer(), 1);
    run(&mut sys, 1);
    assert_eq!(sys.delay_timer(), 0);
    run(&mut sys, 1000);
    assert_eq!(sys.delay_timer(), 0);
}

#[test]
fn sound_flag_follows_sound_timer() {
    let mut sys = System::new(&[0x60, 0x02, 0xF0, 0x18, 0xF1, 0x0A]);
    run(&mut sys, 2);
    assert_eq!(sys.sound_timer(), 2);
    assert!(sys.get_sound());
    run(&mut sys, 334);
    assert_eq!(sys.sound_timer(), 0);
    assert!(!sys.get_sound());
}

#[test]
fn update_runs_the_cycles_that_fall_due() {
    // 0x200: ADD V1, 1; JUMP 0x200
    let mut sys = System::new(&[0x71, 0x01, 0x12, 0x00]);
    sys.update(1_000).unwrap();
    // 1 ms at 10 kHz is ten cycles: five additions.
    assert_eq!(sys.register(reg(1)), 5);
    sys.update(50).unwrap();
    sys.update(49).unwrap();
    assert_eq!(sys.register(reg(1)), 5);
    assert_eq!(sys.pc().get(), 0x200);
    sys.update(1).unwrap();
    assert_eq!(sys.pc().get(), 0x202);
    assert_eq!(sys.register(reg(1)), 6);
}

#[test]
fn update_stops_at_a_fault() {
    let mut sys = System::new(&[0x61, 0x01, 0x00, 0x00]);
    assert_eq!(sys.update(1_000), Err(Fault::IllegalInstruction(0x0000)));
    assert_eq!(sys.pc().get(), 0x202);
    assert_eq!(sys.register(reg(1)), 1);
}

#[test]
fn index_instructions() {
    let mut sys = System::new(&[]);
    sys.execute(Instruction::SetIdx(Address::new(0x300)), 0).unwrap();
    sys.execute(Instruction::SetNum(reg(4), 0x20), 0).unwrap();
    sys.execute(Instruction::AddIdx(reg(4)), 0).unwrap();
    assert_eq!(sys.index().get(), 0x320);
    sys.execute(Instruction::SetNum(reg(4), 0xB), 0).unwrap();
    sys.execute(Instruction::SetSprite(reg(4)), 0).unwrap();
    assert_eq!(sys.index().get(), 0x50 + 0xB * 5);
    sys.execute(Instruction::SetIdx(Address::new(0xFF0)), 0).unwrap();
    sys.execute(Instruction::SetNum(reg(4), 0x10), 0).unwrap();
    assert_eq!(sys.execute(Instruction::AddIdx(reg(4)), 0), Err(Fault::AddressOutOfRange));
    assert_eq!(sys.index().get(), 0xFF0);
}

#[test]
fn store_bcd_writes_decimal_digits() {
    let mut sys = System::new(&[]);
    sys.execute(Instruction::SetNum(reg(7), 254), 0).unwrap();
    sys.execute(Instruction::SetIdx(Address::new(0x400)), 0).unwrap();
    sys.execute(Instruction::StoreBcd(reg(7)), 0).unwrap();
    assert_eq!(sys.memory().read(Address::new(0x400), 3), &[2, 5, 4]);
    assert_eq!(sys.index().get(), 0x400);
    sys.execute(Instruction::SetIdx(Address::new(0xFFE)), 0).unwrap();
    assert_eq!(sys.execute(Instruction::StoreBcd(reg(7)), 0), Err(Fault::AddressOutOfRange));
}

#[test]
fn store_and_load_registers() {
    let mut sys = System::new(&[]);
    for r in 0..4u8 {
        sys.execute(Instruction::SetNum(reg(r), 10 + r), 0).unwrap();
    }
    sys.execute(Instruction::SetIdx(Address::new(0x400)), 0).unwrap();
    sys.execute(Instruction::Store(reg(2)), 0).unwrap();
    assert_eq!(sys.memory().read(Address::new(0x400), 4), &[10, 11, 12, 0]);
    assert_eq!(sys.index().get(), 0x403);
    for r in 0..4u8 {
        sys.execute(Instruction::SetNum(reg(r), 0), 0).unwrap();
    }
    sys.execute(Instruction::SetIdx(Address::new(0x400)), 0).unwrap();
    sys.execute(Instruction::Load(reg(1)), 0).unwrap();
    assert_eq!(sys.register(reg(0)), 10);
    assert_eq!(sys.register(reg(1)), 11);
    assert_eq!(sys.register(reg(2)), 0);
    assert_eq!(sys.index().get(), 0x402);
}

#[test]
fn draw_reports_collision_in_vf() {
    let mut sys = System::new(&[]);
    sys.execute(Instruction::SetNum(reg(0), 0), 0).unwrap();
    sys.execute(Instruction::SetNum(reg(1), 3), 0).unwrap();
    sys.execute(Instruction::SetSprite(reg(1)), 0).unwrap();
    sys.execute(Instruction::Draw(reg(0), reg(0), 5), 0).unwrap();
    assert_eq!(sys.register(reg(0xF)), 0);
    assert!(sys.get_pixels()[0][0]);
    assert!(!sys.get_pixels()[0][1]);
    sys.execute(Instruction::Draw(reg(0), reg(0), 5), 0).unwrap();
    assert_eq!(sys.register(reg(0xF)), 1);
    assert!(!sys.get_pixels()[0][0]);
    sys.execute(Instruction::Clear, 0).unwrap();
    assert!(sys.get_pixels().iter().all(|c| c.iter().all(|p| !*p)));
}

#[test]
fn timers_move_to_and_from_registers() {
    let mut sys = System::new(&[]);
    sys.execute(Instruction::SetNum(reg(1), 9), 0).unwrap();
    sys.execute(Instruction::SetDelay(reg(1)), 0).unwrap();
    sys.execute(Instruction::GetDelay(reg(2)), 0).unwrap();
    assert_eq!(sys.register(reg(2)), 9);
    sys.execute(Instruction::SetSound(reg(1)), 0).unwrap();
    assert_eq!(sys.sound_timer(), 9);
}

#[test]
fn pc_at_end_of_memory_faults() {
    let mut sys = System::new(&[]);
    sys.execute(Instruction::Jump(Address::new(0xFFE)), 0).unwrap();
    assert_eq!(sys.execute(Instruction::SetNum(reg(1), 1), 0), Err(Fault::AddressOutOfRange));
    assert_eq!(sys.register(reg(1)), 0);
    sys.execute(Instruction::Jump(Address::new(0xFFF)), 0).unwrap();
    assert_eq!(sys.step(0), Err(Fault::AddressOutOfRange));
}
