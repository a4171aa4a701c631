//! Decoding of 16-bit CHIP-8 instruction words into tagged instructions.
use vstd::prelude::*;

verus! {

/// One decoded CHIP-8 instruction, carrying only its operands.
/// `X`/`Y` are register indices, `NN` an 8-bit immediate and `NNN` a 12-bit address.
#[derive(Debug, PartialEq, Eq, Copy, Clone)]
pub enum Instruction {
    /// 00E0: blank the frame buffer.
    ClearScreen,
    /// 00EE: pop the return address into PC.
    ReturnFromSubroutine,
    /// 1NNN: PC = NNN.
    JumpToAddress(u16),
    /// 2NNN: push PC, then PC = NNN.
    CallSubroutineAtAddress(u16),
    /// 3XNN: skip the next instruction if Vx == NN.
    SkipIfEqual { register: u8, value: u8 },
    /// 4XNN: skip the next instruction if Vx != NN.
    SkipIfNotEqual { register: u8, value: u8 },
    /// 5XY0: skip the next instruction if Vx == Vy.
    SkipIfRegistersEqual { register_x: u8, register_y: u8 },
    /// 6XNN: Vx = NN.
    SetV { register: u8, value: u8 },
    /// 7XNN: Vx = Vx + NN, wrapping, VF untouched.
    AddToRegister { register: u8, value: u8 },
    /// 8XY0: Vx = Vy.
    StoreYToX { register_x: u8, register_y: u8 },
    /// 8XY1: Vx |= Vy.
    OrRegisters { register_x: u8, register_y: u8 },
    /// 8XY2: Vx &= Vy.
    AndRegisters { register_x: u8, register_y: u8 },
    /// 8XY3: Vx ^= Vy.
    XorRegisters { register_x: u8, register_y: u8 },
    /// 8XY4: Vx += Vy, wrapping; VF = carry.
    AddRegisters { register_x: u8, register_y: u8 },
    /// 8XY5: Vx = Vx - Vy, wrapping; VF = no borrow.
    SubtractXMinusY { register_x: u8, register_y: u8 },
    /// 8XY6: VF = bit 0 of Vx; Vx >>= 1.
    ShiftRegisterRight { register_x: u8, register_y: u8 },
    /// 8XY7: Vx = Vy - Vx, wrapping; VF = no borrow.
    SubtractYMinusX { register_x: u8, register_y: u8 },
    /// 8XYE: VF = bit 7 of Vx; Vx <<= 1.
    ShiftRegisterLeft { register_x: u8, register_y: u8 },
    /// 9XY0: skip the next instruction if Vx != Vy.
    SkipIfRegistersNotEqual { register_x: u8, register_y: u8 },
    /// ANNN: I = NNN.
    StoreAddrToI(u16),
    /// BNNN: PC = NNN + V0.
    JumpWithOffset(u16),
    /// CXNN: Vx = random byte & NN.
    SetRandomNumber { register: u8, mask: u8 },
    /// DXYN: draw an N-row sprite from memory[I..] at (Vx, Vy).
    Draw { register_x: u8, register_y: u8, bytes: u8 },
    /// EX9E: skip the next instruction if the latched key is Vx's low nibble.
    SkipIfKeyPressed(u8),
    /// EXA1: skip the next instruction unless the latched key is Vx's low nibble.
    SkipIfKeyNotPressed(u8),
    /// FX07: Vx = delay timer.
    SetRegisterFromDelayTimer(u8),
    /// FX0A: wait for a key, then Vx = key.
    HaltAndGetKey(u8),
    /// FX15: delay timer = Vx.
    SetDelayTimerFromRegister(u8),
    /// FX18: sound timer = Vx.
    SetSoundTimerFromRegister(u8),
    /// FX1E: I += Vx.
    AddRegisterToI(u8),
    /// FX29: I = address of the font glyph for Vx's low nibble.
    SetIToFontLocation(u8),
    /// FX33: memory[I..I+3] = decimal digits of Vx.
    StoreBcd(u8),
    /// FX55: memory[I..=I+X] = V0..=Vx.
    SaveRegisters(u8),
    /// FX65: V0..=Vx = memory[I..=I+X].
    LoadRegisters(u8),
}

/// The four nibbles of a word, most significant first.
pub open spec fn nibbles(w: u16) -> (u8, u8, u8, u8) {
    ((w / 0x1000) as u8, ((w / 0x100) % 16) as u8, ((w / 0x10) % 16) as u8, (w % 16) as u8)
}

/// Two nibbles read as a byte, the first one most significant.
pub open spec fn byte_of(a: u8, b: u8) -> u8 {
    (16 * a + b) as u8
}

/// Three nibbles read as a 12-bit address, the first one most significant.
pub open spec fn address_of(a: u8, b: u8, c: u8) -> u16 {
    (256 * a + 16 * b + c) as u16
}

/// The instruction that a word encodes, if any.
pub open spec fn decode(w: u16) -> Option<Instruction> {
    let (f, x, y, n) = nibbles(w);
    let nn = byte_of(y, n);
    let nnn = address_of(x, y, n);
    if f == 0x0 {
        if x == 0 && y == 0xe && n == 0x0 {
            Some(Instruction::ClearScreen)
        } else if x == 0 && y == 0xe && n == 0xe {
            Some(Instruction::ReturnFromSubroutine)
        } else {
            None
        }
    } else if f == 0x1 {
        Some(Instruction::JumpToAddress(nnn))
    } else if f == 0x2 {
        Some(Instruction::CallSubroutineAtAddress(nnn))
    } else if f == 0x3 {
        Some(Instruction::SkipIfEqual { register: x, value: nn })
    } else if f == 0x4 {
        Some(Instruction::SkipIfNotEqual { register: x, value: nn })
    } else if f == 0x5 {
        if n == 0 {
            Some(Instruction::SkipIfRegistersEqual { register_x: x, register_y: y })
        } else {
            None
        }
    } else if f == 0x6 {
        Some(Instruction::SetV { register: x, value: nn })
    } else if f == 0x7 {
        Some(Instruction::AddToRegister { register: x, value: nn })
    } else if f == 0x8 {
        decode_arithmetic(x, y, n)
    } else if f == 0x9 {
        if n == 0 {
            Some(Instruction::SkipIfRegistersNotEqual { register_x: x, register_y: y })
        } else {
            None
        }
    } else if f == 0xa {
        Some(Instruction::StoreAddrToI(nnn))
    } else if f == 0xb {
        Some(Instruction::JumpWithOffset(nnn))
    } else if f == 0xc {
        Some(Instruction::SetRandomNumber { register: x, mask: nn })
    } else if f == 0xd {
        Some(Instruction::Draw { register_x: x, register_y: y, bytes: n })
    } else if f == 0xe {
        if y == 0x9 && n == 0xe {
            Some(Instruction::SkipIfKeyPressed(x))
        } else if y == 0xa && n == 0x1 {
            Some(Instruction::SkipIfKeyNotPressed(x))
        } else {
            None
        }
    } else {
        decode_misc(x, byte_of(y, n))
    }
}

/// The 8XYN family, selected by its last nibble.
pub open spec fn decode_arithmetic(x: u8, y: u8, n: u8) -> Option<Instruction> {
    if n == 0x0 {
        Some(Instruction::StoreYToX { register_x: x, register_y: y })
    } else if n == 0x1 {
        Some(Instruction::OrRegisters { register_x: x, register_y: y })
    } else if n == 0x2 {
        Some(Instruction::AndRegisters { register_x: x, register_y: y })
    } else if n == 0x3 {
        Some(Instruction::XorRegisters { register_x: x, register_y: y })
    } else if n == 0x4 {
        Some(Instruction::AddRegisters { register_x: x, register_y: y })
    } else if n == 0x5 {
        Some(Instruction::SubtractXMinusY { register_x: x, register_y: y })
    } else if n == 0x6 {
        Some(Instruction::ShiftRegisterRight { register_x: x, register_y: y })
    } else if n == 0x7 {
        Some(Instruction::SubtractYMinusX { register_x: x, register_y: y })
    } else if n == 0xe {
        Some(Instruction::ShiftRegisterLeft { register_x: x, register_y: y })
    } else {
        None
    }
}

/// The FXNN family, selected by its low byte.
pub open spec fn decode_misc(x: u8, nn: u8) -> Option<Instruction> {
    if nn == 0x07 {
        Some(Instruction::SetRegisterFromDelayTimer(x))
    } else if nn == 0x0a {
        Some(Instruction::HaltAndGetKey(x))
    } else if nn == 0x15 {
        Some(Instruction::SetDelayTimerFromRegister(x))
    } else if nn == 0x18 {
        Some(Instruction::SetSoundTimerFromRegister(x))
    } else if nn == 0x1e {
        Some(Instruction::AddRegisterToI(x))
    } else if nn == 0x29 {
        Some(Instruction::SetIToFontLocation(x))
    } else if nn == 0x33 {
        Some(Instruction::StoreBcd(x))
    } else if nn == 0x55 {
        Some(Instruction::SaveRegisters(x))
    } else if nn == 0x65 {
        Some(Instruction::LoadRegisters(x))
    } else {
        None
    }
}

impl Instruction {
    /// Register operands name one of the sixteen registers and addresses fit in 12 bits.
    /// Every decoded instruction has this shape.
    pub open spec fn valid(self) -> bool {
        match self {
            Instruction::ClearScreen | Instruction::ReturnFromSubroutine => true,
            Instruction::JumpToAddress(a) | Instruction::CallSubroutineAtAddress(a)
            | Instruction::StoreAddrToI(a) | Instruction::JumpWithOffset(a) => a < 0x1000,
            Instruction::SkipIfEqual { register, .. } | Instruction::SkipIfNotEqual {
                register,
                ..
            } | Instruction::SetV { register, .. } | Instruction::AddToRegister { register, .. }
            | Instruction::SetRandomNumber { register, .. } => register < 16,
            Instruction::SkipIfRegistersEqual { register_x, register_y }
            | Instruction::StoreYToX { register_x, register_y } | Instruction::OrRegisters {
                register_x,
                register_y,
            } | Instruction::AndRegisters { register_x, register_y }
            | Instruction::XorRegisters { register_x, register_y }
            | Instruction::AddRegisters { register_x, register_y }
            | Instruction::SubtractXMinusY { register_x, register_y }
            | Instruction::ShiftRegisterRight { register_x, register_y }
            | Instruction::SubtractYMinusX { register_x, register_y }
            | Instruction::ShiftRegisterLeft { register_x, register_y }
            | Instruction::SkipIfRegistersNotEqual { register_x, register_y }
            | Instruction::Draw { register_x, register_y, .. } => register_x < 16 && register_y
                < 16,
            Instruction::SkipIfKeyPressed(x) | Instruction::SkipIfKeyNotPressed(x)
            | Instruction::SetRegisterFromDelayTimer(x) | Instruction::HaltAndGetKey(x)
            | Instruction::SetDelayTimerFromRegister(x) | Instruction::SetSoundTimerFromRegister(x)
            | Instruction::AddRegisterToI(x) | Instruction::SetIToFontLocation(x)
            | Instruction::StoreBcd(x) | Instruction::SaveRegisters(x)
            | Instruction::LoadRegisters(x) => x < 16,
        }
    }
}

/// Splits a word into its four nibbles, most significant first.
pub fn split_opcode(instruction: u16) -> (r: (u8, u8, u8, u8))
    ensures
        r == nibbles(instruction),
{
    let code1 = instruction & 0xf;
    let code2 = (instruction & 0x00f0) >> 4;
    let code3 = (instruction & 0x0f00) >> 8;
    let code4 = (instruction & 0xf000) >> 12;
    assert(code1 == instruction % 16 && code2 == (instruction / 0x10) % 16 && code3 == (
    instruction / 0x100) % 16 && code4 == instruction / 0x1000) by (bit_vector)
        requires
            code1 == instruction & 0xf,
            code2 == (instruction & 0x00f0) >> 4,
            code3 == (instruction & 0x0f00) >> 8,
            code4 == (instruction & 0xf000) >> 12,
    ;
    (code4 as u8, code3 as u8, code2 as u8, code1 as u8)
}

/// Joins two nibbles into a byte, the first one most significant.
pub fn combine_nibble2(a: u8, b: u8) -> (r: u8)
    requires
        a < 16,
        b < 16,
    ensures
        r == byte_of(a, b),
{
    let r = (a << 4) ^ b;
    assert(r == 16 * a + b) by (bit_vector)
        requires
            a < 16,
            b < 16,
            r == (a << 4) ^ b,
    ;
    r
}

/// Joins three nibbles into a 12-bit address, the first one most significant.
pub fn combine_nibble3(a: u8, b: u8, c: u8) -> (r: u16)
    requires
        a < 16,
        b < 16,
        c < 16,
    ensures
        r == address_of(a, b, c),
{
    let r = ((a as u16) << 8) ^ ((b as u16) << 4) ^ c as u16;
    assert(r == 256 * a + 16 * b + c) by (bit_vector)
        requires
            a < 16,
            b < 16,
            c < 16,
            r == ((a as u16) << 8) ^ ((b as u16) << 4) ^ c as u16,
    ;
    r
}

/// Decodes a word into the instruction it encodes, or `None` where no form matches.
pub fn parse_opcode(instruction: u16) -> (r: Option<Instruction>)
    ensures
        r == decode(instruction),
        r matches Some(ins) ==> ins.valid(),
{
    let (f, x, y, n) = split_opcode(instruction);
    match (f, x, y, n) {
        (0x0, 0x0, 0xe, 0x0) => Some(Instruction::ClearScreen),
        (0x0, 0x0, 0xe, 0xe) => Some(Instruction::ReturnFromSubroutine),
        (0x1, a, b, c) => Some(Instruction::JumpToAddress(combine_nibble3(a, b, c))),
        (0x2, a, b, c) => Some(Instruction::CallSubroutineAtAddress(combine_nibble3(a, b, c))),
        (0x3, register, a, b) => Some(
            Instruction::SkipIfEqual { register, value: combine_nibble2(a, b) },
        ),
        (0x4, register, a, b) => Some(
            Instruction::SkipIfNotEqual { register, value: combine_nibble2(a, b) },
        ),
        (0x5, register_x, register_y, 0x0) => Some(
            Instruction::SkipIfRegistersEqual { register_x, register_y },
        ),
        (0x6, register, a, b) => Some(Instruction::SetV { register, value: combine_nibble2(a, b) }),
        (0x7, register, a, b) => Some(
            Instruction::AddToRegister { register, value: combine_nibble2(a, b) },
        ),
        (0x8, register_x, register_y, 0x0) => Some(
            Instruction::StoreYToX { register_x, register_y },
        ),
        (0x8, register_x, register_y, 0x1) => Some(
            Instruction::OrRegisters { register_x, register_y },
        ),
        (0x8, register_x, register_y, 0x2) => Some(
            Instruction::AndRegisters { register_x, register_y },
        ),
        (0x8, register_x, register_y, 0x3) => Some(
            Instruction::XorRegisters { register_x, register_y },
        ),
        (0x8, register_x, register_y, 0x4) => Some(
            Instruction::AddRegisters { register_x, register_y },
        ),
        (0x8, register_x, register_y, 0x5) => Some(
            Instruction::SubtractXMinusY { register_x, register_y },
        ),
        (0x8, register_x, register_y, 0x6) => Some(
            Instruction::ShiftRegisterRight { register_x, register_y },
        ),
        (0x8, register_x, register_y, 0x7) => Some(
            Instruction::SubtractYMinusX { register_x, register_y },
        ),
        (0x8, register_x, register_y, 0xe) => Some(
            Instruction::ShiftRegisterLeft { register_x, register_y },
        ),
        (0x9, register_x, register_y, 0x0) => Some(
            Instruction::SkipIfRegistersNotEqual { register_x, register_y },
        ),
        (0xa, a, b, c) => Some(Instruction::StoreAddrToI(combine_nibble3(a, b, c))),
        (0xb, a, b, c) => Some(Instruction::JumpWithOffset(combine_nibble3(a, b, c))),
        (0xc, register, a, b) => Some(
            Instruction::SetRandomNumber { register, mask: combine_nibble2(a, b) },
        ),
        (0xd, register_x, register_y, bytes) => Some(
            Instruction::Draw { register_x, register_y, bytes },
        ),
        (0xe, register, 0x9, 0xe) => Some(Instruction::SkipIfKeyPressed(register)),
        (0xe, register, 0xa, 0x1) => Some(Instruction::SkipIfKeyNotPressed(register)),
        (0xf, register, 0x0, 0x7) => Some(Instruction::SetRegisterFromDelayTimer(register)),
        (0xf, register, 0x0, 0xa) => Some(Instruction::HaltAndGetKey(register)),
        (0xf, register, 0x1, 0x5) => Some(Instruction::SetDelayTimerFromRegister(register)),
        (0xf, register, 0x1, 0x8) => Some(Instruction::SetSoundTimerFromRegister(register)),
        (0xf, register, 0x1, 0xe) => Some(Instruction::AddRegisterToI(register)),
        (0xf, register, 0x2, 0x9) => Some(Instruction::SetIToFontLocation(register)),
        (0xf, register, 0x3, 0x3) => Some(Instruction::StoreBcd(register)),
        (0xf, register, 0x5, 0x5) => Some(Instruction::SaveRegisters(register)),
        (0xf, register, 0x6, 0x5) => Some(Instruction::LoadRegisters(register)),
        _ => None,
    }
}
} // verus!
