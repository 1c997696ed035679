use vstd::prelude::*;
use crate::cpu::{Address, Register};
use crate::input::Key;
use crate::text::{decimal, hex3, push_decimal, push_hex3};
use vstd::string::StringExecFns;

verus! {

broadcast use {Address::lemma_of_view, Register::lemma_of_view, Key::lemma_of_view};

/// One decoded instruction word, with its operands.
#[derive(Debug, Clone, Copy, PartialEq, Eq, Structural)]
pub enum Instruction {
    /// `00E0`: turn every pixel off.
    Clear,
    /// `00EE`: return from a subroutine.
    Return,
    /// `1NNN`: jump to `NNN`.
    Jump(Address),
    /// `2NNN`: call the subroutine at `NNN`.
    Call(Address),
    /// `3XNN`: skip the next instruction if `VX == NN`.
    EqNum(Register, u8),
    /// `4XNN`: skip the next instruction if `VX != NN`.
    NeqNum(Register, u8),
    /// `5XY0`: skip the next instruction if `VX == VY`.
    Eq(Register, Register),
    /// `6XNN`: `VX = NN`.
    SetNum(Register, u8),
    /// `7XNN`: `VX += NN`, wrapping, flag untouched.
    AddNum(Register, u8),
    /// `8XY0`: `VX = VY`.
    Move(Register, Register),
    /// `8XY1`: `VX |= VY`.
    Or(Register, Register),
    /// `8XY2`: `VX &= VY`.
    And(Register, Register),
    /// `8XY3`: `VX ^= VY`.
    Xor(Register, Register),
    /// `8XY4`: `VX += VY`, `VF` = carry.
    Add(Register, Register),
    /// `8XY5`: `VX -= VY`, `VF` = no borrow.
    Sub(Register, Register),
    /// `8XY6`: `VX >>= 1`, `VF` = the bit shifted out. `VX` shifts itself;
    /// `Y` is not read.
    Shr(Register, Register),
    /// `8XY7`: `VX = VY - VX`, `VF` = no borrow.
    Subb(Register, Register),
    /// `8XYE`: `VX <<= 1`, `VF` = the bit shifted out. `VX` shifts itself;
    /// `Y` is not read.
    Shl(Register, Register),
    /// `9XY0`: skip the next instruction if `VX != VY`.
    Neq(Register, Register),
    /// `ANNN`: `I = NNN`.
    SetIdx(Address),
    /// `BNNN`: jump to `NNN + V0`.
    JumpV0(Address),
    /// `CXNN`: `VX` = a random byte AND `NN`.
    Rand(Register, u8),
    /// `DXYN`: draw the `N`-byte sprite at `I` at `(VX, VY)`, `VF` = collision.
    Draw(Register, Register, u8),
    /// `EX9E`: skip the next instruction if the key whose number `VX` holds
    /// is pressed; the operand is `X`.
    KeyEq(Key),
    /// `EXA1`: skip the next instruction if the key whose number `VX` holds
    /// is not pressed; the operand is `X`.
    KeyNeq(Key),
    /// `FX07`: `VX` = delay timer.
    GetDelay(Register),
    /// `FX0A`: wait for a key press and store its number in `VX`. While no key
    /// is pressed the program counter stays on this instruction.
    WaitKey(Register),
    /// `FX15`: delay timer = `VX`.
    SetDelay(Register),
    /// `FX18`: sound timer = `VX`.
    SetSound(Register),
    /// `FX1E`: `I += VX`.
    AddIdx(Register),
    /// `FX29`: `I` = the font glyph of digit `VX`, at `FONT_BASE + 5 * VX`.
    SetSprite(Register),
    /// `FX33`: store the decimal digits of `VX` at `I`, `I + 1`, `I + 2`.
    StoreBcd(Register),
    /// `FX55`: store `V0` to `VX` at `I`, then move `I` past them.
    Store(Register),
    /// `FX65`: load `V0` to `VX` from `I`, then move `I` past them.
    Load(Register),
}

/// The top four bits of an instruction word.
pub open spec fn nib1(w: u16) -> u8 {
    ((w & 0xF000) >> 12) as u8
}

/// Bits 8 to 11 of an instruction word: the `X` operand.
pub open spec fn nib2(w: u16) -> u8 {
    ((w & 0x0F00) >> 8) as u8
}

/// Bits 4 to 7 of an instruction word: the `Y` operand.
pub open spec fn nib3(w: u16) -> u8 {
    ((w & 0x00F0) >> 4) as u8
}

/// The low four bits of an instruction word.
pub open spec fn nib4(w: u16) -> u8 {
    (w & 0x000F) as u8
}

/// The instruction that word `w` encodes, if any.
pub open spec fn decode(w: u16) -> Option<Instruction> {
    let addr = Address::of(w & 0x0FFF);
    let key = Key::of(nib2(w));
    let x = Register::of(nib2(w));
    let y = Register::of(nib3(w));
    let num = (w & 0x00FF) as u8;
    let (n1, n2, n3, n4) = (nib1(w), nib2(w), nib3(w), nib4(w));
    if n1 == 0x0 {
        if n2 == 0x0 && n3 == 0xE && n4 == 0x0 {
            Some(Instruction::Clear)
        } else if n2 == 0x0 && n3 == 0xE && n4 == 0xE {
            Some(Instruction::Return)
        } else {
            None
        }
    } else if n1 == 0x1 {
        Some(Instruction::Jump(addr))
    } else if n1 == 0x2 {
        Some(Instruction::Call(addr))
    } else if n1 == 0x3 {
        Some(Instruction::EqNum(x, num))
    } else if n1 == 0x4 {
        Some(Instruction::NeqNum(x, num))
    } else if n1 == 0x5 {
        if n4 == 0x0 {
            Some(Instruction::Eq(x, y))
        } else {
            None
        }
    } else if n1 == 0x6 {
        Some(Instruction::SetNum(x, num))
    } else if n1 == 0x7 {
        Some(Instruction::AddNum(x, num))
    } else if n1 == 0x8 {
        if n4 == 0x0 {
            Some(Instruction::Move(x, y))
        } else if n4 == 0x1 {
            Some(Instruction::Or(x, y))
        } else if n4 == 0x2 {
            Some(Instruction::And(x, y))
        } else if n4 == 0x3 {
            Some(Instruction::Xor(x, y))
        } else if n4 == 0x4 {
            Some(Instruction::Add(x, y))
        } else if n4 == 0x5 {
            Some(Instruction::Sub(x, y))
        } else if n4 == 0x6 {
            Some(Instruction::Shr(x, y))
        } else if n4 == 0x7 {
            Some(Instruction::Subb(x, y))
        } else if n4 == 0xE {
            Some(Instruction::Shl(x, y))
        } else {
            None
        }
    } else if n1 == 0x9 {
        if n4 == 0x0 {
            Some(Instruction::Neq(x, y))
        } else {
            None
        }
    } else if n1 == 0xA {
        Some(Instruction::SetIdx(addr))
    } else if n1 == 0xB {
        Some(Instruction::JumpV0(addr))
    } else if n1 == 0xC {
        Some(Instruction::Rand(x, num))
    } else if n1 == 0xD {
        Some(Instruction::Draw(x, y, n4))
    } else if n1 == 0xE {
        if n3 == 0x9 && n4 == 0xE {
            Some(Instruction::KeyEq(key))
        } else if n3 == 0xA && n4 == 0x1 {
            Some(Instruction::KeyNeq(key))
        } else {
            None
        }
    } else {
        let sub = (n3, n4);
        if sub == (0x0u8, 0x7u8) {
            Some(Instruction::GetDelay(x))
        } else if sub == (0x0u8, 0xAu8) {
            Some(Instruction::WaitKey(x))
        } else if sub == (0x1u8, 0x5u8) {
            Some(Instruction::SetDelay(x))
        } else if sub == (0x1u8, 0x8u8) {
            Some(Instruction::SetSound(x))
        } else if sub == (0x1u8, 0xEu8) {
            Some(Instruction::AddIdx(x))
        } else if sub == (0x2u8, 0x9u8) {
            Some(Instruction::SetSprite(x))
        } else if sub == (0x3u8, 0x3u8) {
            Some(Instruction::StoreBcd(x))
        } else if sub == (0x5u8, 0x5u8) {
            Some(Instruction::Store(x))
        } else if sub == (0x6u8, 0x5u8) {
            Some(Instruction::Load(x))
        } else {
            None
        }
    }
}

/// The assembly text of an instruction: registers and numbers in decimal,
/// addresses as three hexadecimal digits after `$`.
pub open spec fn text_of(ins: Instruction) -> Seq<char> {
    match ins {
        Instruction::Clear => "CLS"@,
        Instruction::Return => "RET"@,
        Instruction::Jump(a) => "JUMP $"@ + hex3(a@),
        Instruction::Call(a) => "CALL $"@ + hex3(a@),
        Instruction::EqNum(x, n) => "SEQ V"@ + decimal(x@) + ", "@ + decimal(n as int),
        Instruction::NeqNum(x, n) => "SNE V"@ + decimal(x@) + ", "@ + decimal(n as int),
        Instruction::Eq(x, y) => "SEQ V"@ + decimal(x@) + ", V"@ + decimal(y@),
        Instruction::SetNum(x, n) => "MOV V"@ + decimal(x@) + ", "@ + decimal(n as int),
        Instruction::AddNum(x, n) => "ADD V"@ + decimal(x@) + ", "@ + decimal(n as int),
        Instruction::Move(x, y) => "MOV V"@ + decimal(x@) + ", V"@ + decimal(y@),
        Instruction::Or(x, y) => "OR V"@ + decimal(x@) + ", V"@ + decimal(y@),
        Instruction::And(x, y) => "AND V"@ + decimal(x@) + ", V"@ + decimal(y@),
        Instruction::Xor(x, y) => "XOR V"@ + decimal(x@) + ", V"@ + decimal(y@),
        Instruction::Add(x, y) => "ADD V"@ + decimal(x@) + ", V"@ + decimal(y@),
        Instruction::Sub(x, y) => "SUB V"@ + decimal(x@) + ", V"@ + decimal(y@),
        Instruction::Shr(x, y) => "SHR V"@ + decimal(x@) + ", V"@ + decimal(y@),
        Instruction::Subb(x, y) => "SUBB V"@ + decimal(x@) + ", V"@ + decimal(y@),
        Instruction::Shl(x, y) => "SHL V"@ + decimal(x@) + ", V"@ + decimal(y@),
        Instruction::Neq(x, y) => "SNE V"@ + decimal(x@) + ", V"@ + decimal(y@),
        Instruction::SetIdx(a) => "MOV I, $"@ + hex3(a@),
        Instruction::JumpV0(a) => "JUMP V0 + $"@ + hex3(a@),
        Instruction::Rand(x, n) => "RAND V"@ + decimal(x@) + ", "@ + decimal(n as int),
        Instruction::Draw(x, y, n) => "DRAW V"@ + decimal(x@) + ", V"@ + decimal(y@) + ", "@ + decimal(n as int),
        Instruction::KeyEq(k) => "SEQ K"@ + decimal(k@),
        Instruction::KeyNeq(k) => "SNE K"@ + decimal(k@),
        Instruction::GetDelay(x) => "MOV V"@ + decimal(x@) + ", DT"@,
        Instruction::WaitKey(x) => "WAIT K"@ + decimal(x@),
        Instruction::SetDelay(x) => "MOV DT, V"@ + decimal(x@),
        Instruction::SetSound(x) => "MOV ST, V"@ + decimal(x@),
        Instruction::AddIdx(x) => "ADD I, V"@ + decimal(x@),
        Instruction::SetSprite(x) => "CHAR V"@ + decimal(x@),
        Instruction::StoreBcd(x) => "BCD V"@ + decimal(x@),
        Instruction::Store(x) => "MOV [I], ..V"@ + decimal(x@),
        Instruction::Load(x) => "MOV ..V"@ + decimal(x@) + ", [I]"@,
    }
}

impl Instruction {
    /// Decodes one instruction word; `None` for a word outside the
    /// instruction set.
    pub fn new(data: u16) -> (r: Option<Self>)
        ensures
            r == decode(data),
    {
        assert(data & 0x0FFF < 4096) by (bit_vector);
        assert((data & 0x0F00) >> 8 < 16) by (bit_vector);
        assert((data & 0x00F0) >> 4 < 16) by (bit_vector);
        assert((data & 0xF000) >> 12 < 16) by (bit_vector);
        let addr = Address::new(data & 0x0FFF);
        let key = Key::new(((data & 0x0F00) >> 8) as u8);
        let reg_x = Register::new(((data & 0x0F00) >> 8) as u8);
        let reg_y = Register::new(((data & 0x00F0) >> 4) as u8);
        let num = (data & 0x00FF) as u8;

        let nib1 = ((data & 0xF000) >> 12) as u8;
        let nib2 = ((data & 0x0F00) >> 8) as u8;
        let nib3 = ((data & 0x00F0) >> 4) as u8;
        let nib4 = (data & 0x000F) as u8;

        match (nib1, nib2, nib3, nib4) {
            (0x0, 0x0, 0xE, 0x0) => Some(Self::Clear),
            (0x0, 0x0, 0xE, 0xE) => Some(Self::Return),
            (0x0, _, _, _) => None,
            (0x1, _, _, _) => Some(Self::Jump(addr)),
            (0x2, _, _, _) => Some(Self::Call(addr)),
            (0x3, _, _, _) => Some(Self::EqNum(reg_x, num)),
            (0x4, _, _, _) => Some(Self::NeqNum(reg_x, num)),
            (0x5, _, _, 0x0) => Some(Self::Eq(reg_x, reg_y)),
            (0x6, _, _, _) => Some(Self::SetNum(reg_x, num)),
            (0x7, _, _, _) => Some(Self::AddNum(reg_x, num)),
            (0x8, _, _, 0x0) => Some(Self::Move(reg_x, reg_y)),
            (0x8, _, _, 0x1) => Some(Self::Or(reg_x, reg_y)),
            (0x8, _, _, 0x2) => Some(Self::And(reg_x, reg_y)),
            (0x8, _, _, 0x3) => Some(Self::Xor(reg_x, reg_y)),
            (0x8, _, _, 0x4) => Some(Self::Add(reg_x, reg_y)),
            (0x8, _, _, 0x5) => Some(Self::Sub(reg_x, reg_y)),
            (0x8, _, _, 0x6) => Some(Self::Shr(reg_x, reg_y)),
            (0x8, _, _, 0x7) => Some(Self::Subb(reg_x, reg_y)),
            (0x8, _, _, 0xE) => Some(Self::Shl(reg_x, reg_y)),
            (0x9, _, _, 0x0) => Some(Self::Neq(reg_x, reg_y)),
            (0xA, _, _, _) => Some(Self::SetIdx(addr)),
            (0xB, _, _, _) => Some(Self::JumpV0(addr)),
            (0xC, _, _, _) => Some(Self::Rand(reg_x, num)),
            (0xD, _, _, _) => Some(Self::Draw(reg_x, reg_y, nib4)),
            (0xE, _, 0x9, 0xE) => Some(Self::KeyEq(key)),
            (0xE, _, 0xA, 0x1) => Some(Self::KeyNeq(key)),
            (0xF, _, 0x0, 0x7) => Some(Self::GetDelay(reg_x)),
            (0xF, _, 0x0, 0xA) => Some(Self::WaitKey(reg_x)),
            (0xF, _, 0x1, 0x5) => Some(Self::SetDelay(reg_x)),
            (0xF, _, 0x1, 0x8) => Some(Self::SetSound(reg_x)),
            (0xF, _, 0x1, 0xE) => Some(Self::AddIdx(reg_x)),
            (0xF, _, 0x2, 0x9) => Some(Self::SetSprite(reg_x)),
            (0xF, _, 0x3, 0x3) => Some(Self::StoreBcd(reg_x)),
            (0xF, _, 0x5, 0x5) => Some(Self::Store(reg_x)),
            (0xF, _, 0x6, 0x5) => Some(Self::Load(reg_x)),
            _ => None,
        }
    }

    /// The assembly text of the instruction, as `text_of` gives it.
    pub fn mnemonic(&self) -> (r: String)
        ensures
            r@ == text_of(*self),
    {
        let mut s = String::new();
        match *self {
            Self::Clear => {
                s.append("CLS");
            },
            Self::Return => {
                s.append("RET");
            },
            Self::Jump(a) => {
                s.append("JUMP $");
                push_hex3(&mut s, a.get() as u16);
            },
            Self::Call(a) => {
                s.append("CALL $");
                push_hex3(&mut s, a.get() as u16);
            },
            Self::EqNum(x, n) => {
                s.append("SEQ V");
                push_decimal(&mut s, x.get());
                s.append(", ");
                push_decimal(&mut s, n);
            },
            Self::NeqNum(x, n) => {
                s.append("SNE V");
                push_decimal(&mut s, x.get());
                s.append(", ");
                push_decimal(&mut s, n);
            },
            Self::Eq(x, y) => {
                s.append("SEQ V");
                push_decimal(&mut s, x.get());
                s.append(", V");
                push_decimal(&mut s, y.get());
            },
            Self::SetNum(x, n) => {
                s.append("MOV V");
                push_decimal(&mut s, x.get());
                s.append(", ");
                push_decimal(&mut s, n);
            },
            Self::AddNum(x, n) => {
                s.append("ADD V");
                push_decimal(&mut s, x.get());
                s.append(", ");
                push_decimal(&mut s, n);
            },
            Self::Move(x, y) => {
                s.append("MOV V");
                push_decimal(&mut s, x.get());
                s.append(", V");
                push_decimal(&mut s, y.get());
            },
            Self::Or(x, y) => {
                s.append("OR V");
                push_decimal(&mut s, x.get());
                s.append(", V");
                push_decimal(&mut s, y.get());
            },
            Self::And(x, y) => {
                s.append("AND V");
                push_decimal(&mut s, x.get());
                s.append(", V");
                push_decimal(&mut s, y.get());
            },
            Self::Xor(x, y) => {
                s.append("XOR V");
                push_decimal(&mut s, x.get());
                s.append(", V");
                push_decimal(&mut s, y.get());
            },
            Self::Add(x, y) => {
                s.append("ADD V");
                push_decimal(&mut s, x.get());
                s.append(", V");
                push_decimal(&mut s, y.get());
            },
            Self::Sub(x, y) => {
                s.append("SUB V");
                push_decimal(&mut s, x.get());
                s.append(", V");
                push_decimal(&mut s, y.get());
            },
            Self::Shr(x, y) => {
                s.append("SHR V");
                push_decimal(&mut s, x.get());
                s.append(", V");
                push_decimal(&mut s, y.get());
            },
            Self::Subb(x, y) => {
                s.append("SUBB V");
                push_decimal(&mut s, x.get());
                s.append(", V");
                push_decimal(&mut s, y.get());
            },
            Self::Shl(x, y) => {
                s.append("SHL V");
                push_decimal(&mut s, x.get());
                s.append(", V");
                push_decimal(&mut s, y.get());
            },
            Self::Neq(x, y) => {
                s.append("SNE V");
                push_decimal(&mut s, x.get());
                s.append(", V");
                push_decimal(&mut s, y.get());
            },
            Self::SetIdx(a) => {
                s.append("MOV I, $");
                push_hex3(&mut s, a.get() as u16);
            },
            Self::JumpV0(a) => {
                s.append("JUMP V0 + $");
                push_hex3(&mut s, a.get() as u16);
            },
            Self::Rand(x, n) => {
                s.append("RAND V");
                push_decimal(&mut s, x.get());
                s.append(", ");
                push_decimal(&mut s, n);
            },
            Self::Draw(x, y, n) => {
                s.append("DRAW V");
                push_decimal(&mut s, x.get());
                s.append(", V");
                push_decimal(&mut s, y.get());
                s.append(", ");
                push_decimal(&mut s, n);
            },
            Self::KeyEq(k) => {
                s.append("SEQ K");
                push_decimal(&mut s, k.get());
            },
            Self::KeyNeq(k) => {
                s.append("SNE K");
                push_decimal(&mut s, k.get());
            },
            Self::GetDelay(x) => {
                s.append("MOV V");
                push_decimal(&mut s, x.get());
                s.append(", DT");
            },
            Self::WaitKey(x) => {
                s.append("WAIT K");
                push_decimal(&mut s, x.get());
            },
            Self::SetDelay(x) => {
                s.append("MOV DT, V");
                push_decimal(&mut s, x.get());
            },
            Self::SetSound(x) => {
                s.append("MOV ST, V");
                push_decimal(&mut s, x.get());
            },
            Self::AddIdx(x) => {
                s.append("ADD I, V");
                push_decimal(&mut s, x.get());
            },
            Self::SetSprite(x) => {
                s.append("CHAR V");
                push_decimal(&mut s, x.get());
            },
            Self::StoreBcd(x) => {
                s.append("BCD V");
                push_decimal(&mut s, x.get());
            },
            Self::Store(x) => {
                s.append("MOV [I], ..V");
                push_decimal(&mut s, x.get());
            },
            Self::Load(x) => {
                s.append("MOV ..V");
                push_decimal(&mut s, x.get());
                s.append(", [I]");
            },
        }
        assert(s@ =~= text_of(*self));
        s
    }
}

} // verus!
