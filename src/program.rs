//! The CHIP-8 machine state, its execute engine and the per-cycle step.
use vstd::prelude::*;
use crate::instruction::{decode, parse_opcode, Instruction};
use crate::display::{blank_frame, draw_row, frame_view, xor_row, row_collides};

verus! {

/// Rows of the frame buffer.
pub const NUM_ROWS: usize = 32;
/// Columns of the frame buffer.
pub const NUM_COLS: usize = 64;
/// Bytes of addressable memory.
pub const MEMORY_SIZE: usize = 4096;
/// Where a program image is copied to, and where execution starts.
pub const PROGRAM_STARTING_ADDRESS: u16 = 512;
/// Largest program image that fits above the reserved region.
pub const MAX_PROGRAM_SIZE: usize = 3584;
/// Where the font table starts.
pub const FONT_STARTING_ADDRESS: u16 = 0x50;
/// Bytes per font glyph.
pub const FONT_BYTES: u16 = 5;

/// A 64x32 grid of cells, row-major; `true` is lit.
pub type PixelBuffer = [[bool; 64]; 32];

/// What a step did to the display, for a caller that presents it.
#[derive(Debug, PartialEq, Eq, Copy, Clone)]
pub enum UIAction {
    /// The frame buffer was blanked.
    ClearScreen,
    /// A sprite was drawn into the frame buffer.
    Draw,
}

/// A fatal run-time fault: the program is malformed or unsupported.
#[derive(Debug, PartialEq, Eq, Copy, Clone)]
pub enum MachineError {
    /// The word fetched at `address` encodes no instruction.
    UnknownOpcode { opcode: u16, address: u16 },
    /// A return was executed with an empty call stack.
    StackUnderflow,
    /// An access of `len` bytes from `start` would leave the 4096-byte memory.
    MemoryOutOfRange { start: u16, len: u16 },
}

/// Why a program image could not be loaded.
#[derive(Debug, PartialEq, Eq, Copy, Clone)]
pub enum LoadError {
    /// The image holds `size` bytes, more than the 3584 above the reserved region.
    ProgramTooLarge { size: usize },
}

/// The mathematical model of a machine.
pub struct MachineView {
    pub memory: Seq<u8>,
    pub pc: u16,
    pub registers: Seq<u8>,
    pub i: u16,
    pub delay: u8,
    pub sound: u8,
    pub frame: Seq<Seq<bool>>,
    pub stack: Seq<u16>,
    pub key: Option<u8>,
}

impl MachineView {
    /// Memory, registers and frame buffer have their fixed sizes.
    pub open spec fn wf(self) -> bool {
        &&& self.memory.len() == 4096
        &&& self.registers.len() == 16
        &&& self.frame.len() == 32
        &&& forall|r: int| 0 <= r < 32 ==> (#[trigger] self.frame[r]).len() == 64
    }

    pub open spec fn reg(self, x: u8) -> u8 {
        self.registers[x as int]
    }

    pub open spec fn with_reg(self, x: u8, v: u8) -> MachineView {
        MachineView { registers: self.registers.update(x as int, v), ..self }
    }

    /// VF is written first and Vx second, so with x = 0xF the result wins.
    pub open spec fn with_flag_then_reg(self, x: u8, v: u8, flag: u8) -> MachineView {
        MachineView { registers: self.registers.update(15, flag).update(x as int, v), ..self }
    }

    /// Advances PC past the next instruction when `cond` holds (16-bit wrapping).
    pub open spec fn skip_if(self, cond: bool) -> MachineView {
        if cond {
            MachineView { pc: ((self.pc + 2) % 0x10000) as u16, ..self }
        } else {
            self
        }
    }

    /// The word held at PC and the byte after it, high byte first.
    pub open spec fn fetch(self) -> u16 {
        (self.memory[self.pc as int] * 256 + self.memory[self.pc + 1]) as u16
    }

    /// Both timers counted down once, floored at zero.
    pub open spec fn tick_timers(self) -> MachineView {
        MachineView { delay: tick(self.delay), sound: tick(self.sound), ..self }
    }

    /// PC moved past the fetched word, both timers counted down once, floored at zero.
    pub open spec fn advance(self) -> MachineView {
        MachineView { pc: (self.pc + 2) as u16, ..self.tick_timers() }
    }
}

/// One count down of a timer, floored at zero.
pub open spec fn tick(t: u8) -> u8 {
    if t > 0 { (t - 1) as u8 } else { 0 }
}

/// What a step reports to the display for an instruction.
pub open spec fn ui_action(ins: Instruction) -> Option<UIAction> {
    match ins {
        Instruction::ClearScreen => Some(UIAction::ClearScreen),
        Instruction::Draw { .. } => Some(UIAction::Draw),
        _ => None,
    }
}

/// Whether `len` bytes from `start` lie inside memory.
pub open spec fn in_memory(start: u16, len: int) -> bool {
    start + len <= 4096
}

/// Memory with the decimal digits of `v` written at `i`, most significant first.
pub open spec fn bcd_memory(m: Seq<u8>, i: int, v: u8) -> Seq<u8> {
    m.update(i, v / 100).update(i + 1, (v / 10) % 10).update(i + 2, v % 10)
}

/// Memory with registers V0..=Vx copied to `i..=i+x`.
pub open spec fn saved_memory(m: Seq<u8>, regs: Seq<u8>, i: int, x: int) -> Seq<u8> {
    Seq::new(m.len(), |a: int| if i <= a <= i + x { regs[a - i] } else { m[a] })
}

/// Registers with V0..=Vx read from memory at `i..=i+x`.
pub open spec fn loaded_registers(m: Seq<u8>, regs: Seq<u8>, i: int, x: int) -> Seq<u8> {
    Seq::new(regs.len(), |r: int| if r <= x { m[i + r] } else { regs[r] })
}

/// The frame after drawing an `n`-row sprite from memory at `i` with its top-left at
/// (`x0`, `y0`): rows and columns past the grid's edge are dropped.
pub open spec fn drawn_frame(frame: Seq<Seq<bool>>, m: Seq<u8>, i: int, x0: int, y0: int, n: int) -> Seq<Seq<bool>> {
    Seq::new(frame.len(), |r: int| if y0 <= r < y0 + n { xor_row(frame[r], x0, m[i + r - y0]) } else { frame[r] })
}

/// Whether drawing that sprite turns some lit cell off.
pub open spec fn draw_collides(frame: Seq<Seq<bool>>, m: Seq<u8>, i: int, x0: int, y0: int, n: int) -> bool {
    exists|r: int| y0 <= r < y0 + n && 0 <= r < frame.len() && #[trigger] row_collides(frame[r], x0, m[i + r - y0])
}

/// The effect of a draw instruction.
pub open spec fn draw_spec(s: MachineView, rx: u8, ry: u8, n: u8) -> Result<MachineView, MachineError> {
    let x0 = s.reg(rx) % 64;
    let y0 = s.reg(ry) % 32;
    if !in_memory(s.i, n as int) {
        Err(MachineError::MemoryOutOfRange { start: s.i, len: n as u16 })
    } else {
        let collided = draw_collides(s.frame, s.memory, s.i as int, x0 as int, y0 as int, n as int);
        Ok(MachineView {
            frame: drawn_frame(s.frame, s.memory, s.i as int, x0 as int, y0 as int, n as int),
            registers: s.registers.update(15, if collided { 1u8 } else { 0u8 }),
            ..s
        })
    }
}

/// The effect of executing one instruction; `random` is the byte drawn for set-random.
pub open spec fn execute_spec(s: MachineView, ins: Instruction, random: u8) -> Result<MachineView, MachineError> {
    match ins {
        Instruction::ClearScreen => Ok(MachineView { frame: blank_frame(), ..s }),
        Instruction::ReturnFromSubroutine => if s.stack.len() == 0 {
            Err(MachineError::StackUnderflow)
        } else {
            Ok(MachineView { pc: s.stack.last(), stack: s.stack.drop_last(), ..s })
        },
        Instruction::JumpToAddress(a) => Ok(MachineView { pc: a, ..s }),
        Instruction::CallSubroutineAtAddress(a) => Ok(MachineView { pc: a, stack: s.stack.push(s.pc), ..s }),
        Instruction::SkipIfEqual { register, value } => Ok(s.skip_if(s.reg(register) == value)),
        Instruction::SkipIfNotEqual { register, value } => Ok(s.skip_if(s.reg(register) != value)),
        Instruction::SkipIfRegistersEqual { register_x, register_y } => Ok(s.skip_if(s.reg(register_x) == s.reg(register_y))),
        Instruction::SkipIfRegistersNotEqual { register_x, register_y } => Ok(s.skip_if(s.reg(register_x) != s.reg(register_y))),
        Instruction::SetV { register, value } => Ok(s.with_reg(register, value)),
        Instruction::AddToRegister { register, value } => Ok(s.with_reg(register, ((s.reg(register) + value) % 256) as u8)),
        Instruction::StoreYToX { register_x, register_y } => Ok(s.with_reg(register_x, s.reg(register_y))),
        Instruction::OrRegisters { register_x, register_y } => Ok(s.with_reg(register_x, s.reg(register_x) | s.reg(register_y))),
        Instruction::AndRegisters { register_x, register_y } => Ok(s.with_reg(register_x, s.reg(register_x) & s.reg(register_y))),
        Instruction::XorRegisters { register_x, register_y } => Ok(s.with_reg(register_x, s.reg(register_x) ^ s.reg(register_y))),
        Instruction::AddRegisters { register_x, register_y } => {
            let (a, b) = (s.reg(register_x), s.reg(register_y));
            Ok(s.with_flag_then_reg(register_x, ((a + b) % 256) as u8, if a + b > 255 { 1 } else { 0 }))
        },
        Instruction::SubtractXMinusY { register_x, register_y } => {
            let (a, b) = (s.reg(register_x), s.reg(register_y));
            Ok(s.with_flag_then_reg(register_x, ((a - b) % 256) as u8, if a >= b { 1 } else { 0 }))
        },
        Instruction::SubtractYMinusX { register_x, register_y } => {
            let (a, b) = (s.reg(register_x), s.reg(register_y));
            Ok(s.with_flag_then_reg(register_x, ((b - a) % 256) as u8, if b >= a { 1 } else { 0 }))
        },
        Instruction::ShiftRegisterRight { register_x, .. } => {
            let a = s.reg(register_x);
            Ok(s.with_flag_then_reg(register_x, a / 2, a % 2))
        },
        Instruction::ShiftRegisterLeft { register_x, .. } => {
            let a = s.reg(register_x);
            Ok(s.with_flag_then_reg(register_x, ((2 * a) % 256) as u8, a / 128))
        },
        Instruction::StoreAddrToI(a) => Ok(MachineView { i: a, ..s }),
        Instruction::JumpWithOffset(a) => Ok(MachineView { pc: (a + s.reg(0)) as u16, ..s }),
        Instruction::SetRandomNumber { register, mask } => Ok(s.with_reg(register, random & mask)),
        Instruction::Draw { register_x, register_y, bytes } => draw_spec(s, register_x, register_y, bytes),
        Instruction::SkipIfKeyPressed(x) => Ok(s.skip_if(s.key == Some(s.reg(x) & 0xf))),
        Instruction::SkipIfKeyNotPressed(x) => Ok(s.skip_if(s.key != Some(s.reg(x) & 0xf))),
        Instruction::SetRegisterFromDelayTimer(x) => Ok(s.with_reg(x, s.delay)),
        Instruction::HaltAndGetKey(x) => match s.key {
            None => Ok(MachineView { pc: ((s.pc + 0x10000 - 2) % 0x10000) as u16, ..s }),
            Some(k) => Ok(s.with_reg(x, k)),
        },
        Instruction::SetDelayTimerFromRegister(x) => Ok(MachineView { delay: s.reg(x), ..s }),
        Instruction::SetSoundTimerFromRegister(x) => Ok(MachineView { sound: s.reg(x), ..s }),
        Instruction::AddRegisterToI(x) => Ok(MachineView { i: ((s.i + s.reg(x)) % 0x10000) as u16, ..s }),
        Instruction::SetIToFontLocation(x) => Ok(MachineView { i: (0x50 + 5 * (s.reg(x) & 0xf)) as u16, ..s }),
        Instruction::StoreBcd(x) => if !in_memory(s.i, 3) {
            Err(MachineError::MemoryOutOfRange { start: s.i, len: 3 })
        } else {
            Ok(MachineView { memory: bcd_memory(s.memory, s.i as int, s.reg(x)), ..s })
        },
        Instruction::SaveRegisters(x) => if !in_memory(s.i, x + 1) {
            Err(MachineError::MemoryOutOfRange { start: s.i, len: (x + 1) as u16 })
        } else {
            Ok(MachineView { memory: saved_memory(s.memory, s.registers, s.i as int, x as int), ..s })
        },
        Instruction::LoadRegisters(x) => if !in_memory(s.i, x + 1) {
            Err(MachineError::MemoryOutOfRange { start: s.i, len: (x + 1) as u16 })
        } else {
            Ok(MachineView { registers: loaded_registers(s.memory, s.registers, s.i as int, x as int), ..s })
        },
    }
}

/// Whether a machine that went from `s` to `t` and answered `r` did what `ins` prescribes:
/// on success the new state and the display action, on a fault the unchanged state and the fault.
pub open spec fn executed(
    s: MachineView,
    ins: Instruction,
    random: u8,
    t: MachineView,
    r: Result<Option<UIAction>, MachineError>,
) -> bool {
    match execute_spec(s, ins, random) {
        Ok(u) => t == u && r == Ok::<Option<UIAction>, MachineError>(ui_action(ins)),
        Err(e) => t == s && r == Err::<Option<UIAction>, MachineError>(e),
    }
}

/// The machine after one cycle and what the cycle answers: fetch at PC, advance PC by 2,
/// decode, count both timers down once, execute.
/// Every cycle counts the timers down. Where the word at PC lies past memory, PC stays.
/// Where the fetched word does not decode, or executing it faults, the machine is left
/// advanced (PC + 2, timers counted down) and the fault is answered.
pub open spec fn step_spec(s: MachineView, random: u8) -> (MachineView, Result<Option<UIAction>, MachineError>) {
    if !in_memory(s.pc, 2) {
        (s.tick_timers(), Err(MachineError::MemoryOutOfRange { start: s.pc, len: 2 }))
    } else {
        match decode(s.fetch()) {
            None => (s.advance(), Err(MachineError::UnknownOpcode { opcode: s.fetch(), address: s.pc })),
            Some(ins) => match execute_spec(s.advance(), ins, random) {
                Ok(t) => (t, Ok(ui_action(ins))),
                Err(e) => (s.advance(), Err(e)),
            },
        }
    }
}

/// The 8-bit sum of `a` and `b`, and 1 where it carried out of 8 bits, else 0.
fn add_with_carry(a: u8, b: u8) -> (r: (u8, u8))
    ensures
        r.0 == (a + b) % 256,
        r.1 == if a + b > 255 { 1u8 } else { 0u8 },
{
    let flag: u8 = if a.checked_add(b).is_none() { 1 } else { 0 };
    (a.wrapping_add(b), flag)
}

/// The 8-bit difference `a - b`, and 1 where no borrow was needed (a >= b), else 0.
fn sub_with_borrow(a: u8, b: u8) -> (r: (u8, u8))
    ensures
        r.0 == (a - b) % 256,
        r.1 == if a >= b { 1u8 } else { 0u8 },
{
    let flag: u8 = if a >= b { 1 } else { 0 };
    (a.wrapping_sub(b), flag)
}

/// PC moved back by one instruction, wrapping in 16 bits.
fn rewind(pc: u16) -> (r: u16)
    ensures
        r == (pc + 0x10000 - 2) % 0x10000,
{
    pc.wrapping_sub(2)
}

/// I moved forward by `v`, wrapping in 16 bits.
fn offset_index(i: u16, v: u8) -> (r: u16)
    ensures
        r == (i + v) % 0x10000,
{
    i.wrapping_add(v as u16)
}

/// The address of the font glyph for the low nibble of `v`.
fn font_address(v: u8) -> (r: u16)
    ensures
        r == 0x50 + 5 * (v & 0xf),
{
    let font_character = v & 0xf;
    assert(font_character < 16) by (bit_vector)
        requires
            font_character == v & 0xf,
    ;
    FONT_STARTING_ADDRESS + FONT_BYTES * font_character as u16
}

/// A CHIP-8 machine: memory, registers, call stack, timers, frame buffer and input latch.
pub struct Machine {
    memory: [u8; 4096],
    program_counter: u16,
    registers: [u8; 16],
    delay_timer: u8,
    sound_timer: u8,
    i: u16,
    pixel_buffer: PixelBuffer,
    stack: Vec<u16>,
    current_pressed_key: Option<u8>,
}

impl View for Machine {
    type V = MachineView;

    closed spec fn view(&self) -> MachineView {
        MachineView {
            memory: self.memory@,
            pc: self.program_counter,
            registers: self.registers@,
            i: self.i,
            delay: self.delay_timer,
            sound: self.sound_timer,
            frame: frame_view(self.pixel_buffer),
            stack: self.stack@,
            key: self.current_pressed_key,
        }
    }
}

/// Relies on fastrand::u8 over the full range `..`, which returns some byte and does not panic.
#[verifier::external_body]
fn random_byte() -> (r: u8) {
    fastrand::u8(..)
}

impl Machine {
    /// The model of every machine has the fixed sizes.
    pub proof fn lemma_view_wf(&self)
        ensures
            self@.wf(),
    {
    }

    fn set_register(&mut self, x: u8, v: u8)
        requires
            x < 16,
        ensures
            final(self)@ == old(self)@.with_reg(x, v),
    {
        self.registers[x as usize] = v;
    }

    fn set_flag_then_register(&mut self, x: u8, v: u8, flag: u8)
        requires
            x < 16,
        ensures
            final(self)@ == old(self)@.with_flag_then_reg(x, v, flag),
    {
        self.registers[15] = flag;
        self.registers[x as usize] = v;
    }

    fn skip_if(&mut self, cond: bool)
        ensures
            final(self)@ == old(self)@.skip_if(cond),
    {
        if cond {
            self.program_counter = self.program_counter.wrapping_add(2);
        }
    }

    /// Applies one decoded instruction. `random` is the byte that set-random masks.
    /// On a fault the machine is left unchanged.
    pub fn handle_instruction(&mut self, instruction: Instruction, random: u8) -> (r: Result<Option<UIAction>, MachineError>)
        requires
            instruction.valid(),
        ensures
            executed(old(self)@, instruction, random, final(self)@, r),
    {
        match instruction {
            Instruction::ClearScreen
            | Instruction::ReturnFromSubroutine
            | Instruction::JumpToAddress(..)
            | Instruction::CallSubroutineAtAddress(..)
            | Instruction::SkipIfEqual { .. }
            | Instruction::SkipIfNotEqual { .. }
            | Instruction::SkipIfRegistersEqual { .. }
            | Instruction::SkipIfRegistersNotEqual { .. }
            | Instruction::JumpWithOffset(..)
            | Instruction::SkipIfKeyPressed(..)
            | Instruction::SkipIfKeyNotPressed(..) => self.execute_control(instruction),
            Instruction::SetV { .. }
            | Instruction::AddToRegister { .. }
            | Instruction::StoreYToX { .. }
            | Instruction::OrRegisters { .. }
            | Instruction::AndRegisters { .. }
            | Instruction::XorRegisters { .. }
            | Instruction::SetRandomNumber { .. } => self.execute_register(instruction, random),
            Instruction::AddRegisters { .. }
            | Instruction::SubtractXMinusY { .. }
            | Instruction::SubtractYMinusX { .. }
            | Instruction::ShiftRegisterRight { .. }
            | Instruction::ShiftRegisterLeft { .. } => self.execute_arithmetic(instruction),
            Instruction::StoreAddrToI(..)
            | Instruction::SetRegisterFromDelayTimer(..)
            | Instruction::HaltAndGetKey(..)
            | Instruction::SetDelayTimerFromRegister(..)
            | Instruction::SetSoundTimerFromRegister(..)
            | Instruction::AddRegisterToI(..)
            | Instruction::SetIToFontLocation(..) => self.execute_misc(instruction),
            Instruction::Draw { register_x, register_y, bytes } => self.draw(register_x, register_y, bytes),
            Instruction::StoreBcd(register) => self.store_bcd(register),
            Instruction::SaveRegisters(register) => self.save_registers(register),
            Instruction::LoadRegisters(register) => self.load_registers(register),
        }
    }

    /// Executes control flow: clear-screen, return, jumps, call and the skips.
    fn execute_control(&mut self, instruction: Instruction) -> (r: Result<Option<UIAction>, MachineError>)
        requires
            instruction.valid(),
            instruction is ClearScreen
                || instruction is ReturnFromSubroutine
                || instruction is JumpToAddress
                || instruction is CallSubroutineAtAddress
                || instruction is SkipIfEqual
                || instruction is SkipIfNotEqual
                || instruction is SkipIfRegistersEqual
                || instruction is SkipIfRegistersNotEqual
                || instruction is JumpWithOffset
                || instruction is SkipIfKeyPressed
                || instruction is SkipIfKeyNotPressed,
        ensures
            executed(old(self)@, instruction, 0, final(self)@, r),
    {
        match instruction {
            Instruction::ClearScreen => {
                self.pixel_buffer = [[false; 64]; 32];
                assert(frame_view(self.pixel_buffer) =~~= blank_frame());
                Ok(Some(UIAction::ClearScreen))
            },
            Instruction::ReturnFromSubroutine => {
                match self.stack.pop() {
                    Some(address) => {
                        self.program_counter = address;
                        Ok(None)
                    },
                    None => Err(MachineError::StackUnderflow),
                }
            },
            Instruction::JumpToAddress(address) => {
                self.program_counter = address;
                Ok(None)
            },
            Instruction::CallSubroutineAtAddress(address) => {
                self.stack.push(self.program_counter);
                self.program_counter = address;
                Ok(None)
            },
            Instruction::SkipIfEqual { register, value } => {
                let cond = self.registers[register as usize] == value;
                self.skip_if(cond);
                Ok(None)
            },
            Instruction::SkipIfNotEqual { register, value } => {
                let cond = self.registers[register as usize] != value;
                self.skip_if(cond);
                Ok(None)
            },
            Instruction::SkipIfRegistersEqual { register_x, register_y } => {
                let cond = self.registers[register_x as usize] == self.registers[register_y as usize];
                self.skip_if(cond);
                Ok(None)
            },
            Instruction::SkipIfRegistersNotEqual { register_x, register_y } => {
                let cond = self.registers[register_x as usize] != self.registers[register_y as usize];
                self.skip_if(cond);
                Ok(None)
            },
            Instruction::JumpWithOffset(address) => {
                self.program_counter = address + self.registers[0] as u16;
                Ok(None)
            },
            Instruction::SkipIfKeyPressed(register) => {
                let key = self.registers[register as usize] & 0xf;
                let cond = match self.current_pressed_key {
                    Some(k) => k == key,
                    None => false,
                };
                self.skip_if(cond);
                Ok(None)
            },
            Instruction::SkipIfKeyNotPressed(register) => {
                let key = self.registers[register as usize] & 0xf;
                let cond = match self.current_pressed_key {
                    Some(k) => k != key,
                    None => true,
                };
                self.skip_if(cond);
                Ok(None)
            },
            _ => Ok(None),
        }
    }

    /// Executes register loads and bitwise operations, which leave VF alone.
    fn execute_register(&mut self, instruction: Instruction, random: u8) -> (r: Result<Option<UIAction>, MachineError>)
        requires
            instruction.valid(),
            instruction is SetV
                || instruction is AddToRegister
                || instruction is StoreYToX
                || instruction is OrRegisters
                || instruction is AndRegisters
                || instruction is XorRegisters
                || instruction is SetRandomNumber,
        ensures
            executed(old(self)@, instruction, random, final(self)@, r),
    {
        match instruction {
            Instruction::SetV { register, value } => {
                self.set_register(register, value);
                Ok(None)
            },
            Instruction::AddToRegister { register, value } => {
                let v = self.registers[register as usize].wrapping_add(value);
                self.set_register(register, v);
                Ok(None)
            },
            Instruction::StoreYToX { register_x, register_y } => {
                let v = self.registers[register_y as usize];
                self.set_register(register_x, v);
                Ok(None)
            },
            Instruction::OrRegisters { register_x, register_y } => {
                let v = self.registers[register_x as usize] | self.registers[register_y as usize];
                self.set_register(register_x, v);
                Ok(None)
            },
            Instruction::AndRegisters { register_x, register_y } => {
                let v = self.registers[register_x as usize] & self.registers[register_y as usize];
                self.set_register(register_x, v);
                Ok(None)
            },
            Instruction::XorRegisters { register_x, register_y } => {
                let v = self.registers[register_x as usize] ^ self.registers[register_y as usize];
                self.set_register(register_x, v);
                Ok(None)
            },
            Instruction::SetRandomNumber { register, mask } => {
                self.set_register(register, random & mask);
                Ok(None)
            },
            _ => Ok(None),
        }
    }

    /// Executes arithmetic and shifts, which set VF.
    fn execute_arithmetic(&mut self, instruction: Instruction) -> (r: Result<Option<UIAction>, MachineError>)
        requires
            instruction.valid(),
            instruction is AddRegisters
                || instruction is SubtractXMinusY
                || instruction is SubtractYMinusX
                || instruction is ShiftRegisterRight
                || instruction is ShiftRegisterLeft,
        ensures
            executed(old(self)@, instruction, 0, final(self)@, r),
    {
        match instruction {
            Instruction::AddRegisters { register_x, register_y } => {
                let value_x = self.registers[register_x as usize];
                let value_y = self.registers[register_y as usize];
                let (v, flag) = add_with_carry(value_x, value_y);
                self.set_flag_then_register(register_x, v, flag);
                Ok(None)
            },
            Instruction::SubtractXMinusY { register_x, register_y } => {
                let value_x = self.registers[register_x as usize];
                let value_y = self.registers[register_y as usize];
                let (v, flag) = sub_with_borrow(value_x, value_y);
                self.set_flag_then_register(register_x, v, flag);
                Ok(None)
            },
            Instruction::SubtractYMinusX { register_x, register_y } => {
                let value_x = self.registers[register_x as usize];
                let value_y = self.registers[register_y as usize];
                let (v, flag) = sub_with_borrow(value_y, value_x);
                self.set_flag_then_register(register_x, v, flag);
                Ok(None)
            },
            Instruction::ShiftRegisterRight { register_x, .. } => {
                let value = self.registers[register_x as usize];
                self.set_flag_then_register(register_x, value >> 1, value & 1);
                assert(value >> 1 == value / 2 && value & 1 == value % 2) by (bit_vector);
                Ok(None)
            },
            Instruction::ShiftRegisterLeft { register_x, .. } => {
                let value = self.registers[register_x as usize];
                let shifted = value << 1;
                let top = value >> 7;
                assert(shifted == (2 * value) % 256 && top == value / 128) by (bit_vector)
                    requires
                        shifted == value << 1,
                        top == value >> 7,
                ;
                self.set_flag_then_register(register_x, shifted, top);
                Ok(None)
            },
            _ => Ok(None),
        }
    }

    /// Executes the index register, the timers and the key wait.
    fn execute_misc(&mut self, instruction: Instruction) -> (r: Result<Option<UIAction>, MachineError>)
        requires
            instruction.valid(),
            instruction is StoreAddrToI
                || instruction is SetRegisterFromDelayTimer
                || instruction is HaltAndGetKey
                || instruction is SetDelayTimerFromRegister
                || instruction is SetSoundTimerFromRegister
                || instruction is AddRegisterToI
                || instruction is SetIToFontLocation,
        ensures
            executed(old(self)@, instruction, 0, final(self)@, r),
    {
        match instruction {
            Instruction::StoreAddrToI(address) => {
                self.i = address;
                Ok(None)
            },
            Instruction::SetRegisterFromDelayTimer(register) => {
                let v = self.delay_timer;
                self.set_register(register, v);
                Ok(None)
            },
            Instruction::HaltAndGetKey(register) => {
                match self.current_pressed_key {
                    None => self.program_counter = rewind(self.program_counter),
                    Some(key) => self.set_register(register, key),
                }
                Ok(None)
            },
            Instruction::SetDelayTimerFromRegister(register) => {
                self.delay_timer = self.registers[register as usize];
                Ok(None)
            },
            Instruction::SetSoundTimerFromRegister(register) => {
                self.sound_timer = self.registers[register as usize];
                Ok(None)
            },
            Instruction::AddRegisterToI(register) => {
                self.i = offset_index(self.i, self.registers[register as usize]);
                Ok(None)
            },
            Instruction::SetIToFontLocation(register) => {
                self.i = font_address(self.registers[register as usize]);
                Ok(None)
            },
            _ => Ok(None),
        }
    }
}

impl Machine {
    /// Draws an N-row sprite from memory at I with its top-left at (Vx mod 64, Vy mod 32),
    /// clipping at the right and bottom edges; VF = 1 iff some lit cell was turned off.
    fn draw(&mut self, register_x: u8, register_y: u8, bytes: u8) -> (r: Result<Option<UIAction>, MachineError>)
        requires
            register_x < 16,
            register_y < 16,
        ensures
            executed(old(self)@, Instruction::Draw { register_x, register_y, bytes }, 0, final(self)@, r),
    {
        if self.i as usize + bytes as usize > MEMORY_SIZE {
            return Err(MachineError::MemoryOutOfRange { start: self.i, len: bytes as u16 });
        }
        let x0 = self.registers[register_x as usize] % 64;
        let y0 = self.registers[register_y as usize] % 32;
        let ghost old_frame = frame_view(self.pixel_buffer);
        let ghost mem = self.memory@;
        let ghost i = self.i as int;
        let mut pb = self.pixel_buffer;
        let mut collided = false;
        let mut index: u8 = 0;
        while index < bytes && (y0 as usize) + (index as usize) < NUM_ROWS
            invariant
                x0 < 64,
                y0 < 32,
                index <= bytes,
                y0 + index <= 32,
                i + bytes <= 4096,
                i == self.i,
                mem == self.memory@,
                old_frame == frame_view(self.pixel_buffer),
                forall|r: int|
                    0 <= r < 32 ==> (#[trigger] pb@[r])@ == if y0 <= r < y0 + index {
                        xor_row(old_frame[r], x0 as int, mem[i + r - y0])
                    } else {
                        old_frame[r]
                    },
                collided <==> exists|r: int|
                    y0 <= r < y0 + index && 0 <= r < 32 && #[trigger] row_collides(
                        old_frame[r],
                        x0 as int,
                        mem[i + r - y0],
                    ),
            decreases bytes - index,
        {
            let y = y0 as usize + index as usize;
            let sprite = self.memory[self.i as usize + index as usize];
            let (row, hit) = draw_row(pb[y], x0, sprite);
            assert(old_frame[y as int] == pb@[y as int]@);
            pb[y] = row;
            let ghost was = collided;
            collided = collided || hit;
            index = index + 1;
            assert(collided <==> exists|r: int|
                y0 <= r < y0 + index && 0 <= r < 32 && #[trigger] row_collides(
                    old_frame[r],
                    x0 as int,
                    mem[i + r - y0],
                )) by {
                if hit {
                    assert(row_collides(old_frame[y as int], x0 as int, mem[i + y - y0]));
                }
                if was {
                    let r = choose|r: int|
                        y0 <= r < y0 + index - 1 && 0 <= r < 32 && #[trigger] row_collides(
                            old_frame[r],
                            x0 as int,
                            mem[i + r - y0],
                        );
                    assert(y0 <= r < y0 + index);
                }
            }
        }
        let ghost new_frame = drawn_frame(old_frame, mem, i, x0 as int, y0 as int, bytes as int);
        assert(frame_view(pb) =~= new_frame);
        assert(collided == draw_collides(old_frame, mem, i, x0 as int, y0 as int, bytes as int));
        self.pixel_buffer = pb;
        self.registers[15] = if collided { 1 } else { 0 };
        Ok(Some(UIAction::Draw))
    }

    /// Writes the three decimal digits of Vx to memory at I, most significant first.
    fn store_bcd(&mut self, register: u8) -> (r: Result<Option<UIAction>, MachineError>)
        requires
            register < 16,
        ensures
            executed(old(self)@, Instruction::StoreBcd(register), 0, final(self)@, r),
    {
        if self.i as usize + 3 > MEMORY_SIZE {
            return Err(MachineError::MemoryOutOfRange { start: self.i, len: 3 });
        }
        let value = self.registers[register as usize];
        let i = self.i as usize;
        self.memory[i] = value / 100;
        self.memory[i + 1] = (value / 10) % 10;
        self.memory[i + 2] = value % 10;
        Ok(None)
    }

    /// Copies V0..=Vx to memory at I..=I+X; I is left as it was.
    fn save_registers(&mut self, register: u8) -> (r: Result<Option<UIAction>, MachineError>)
        requires
            register < 16,
        ensures
            executed(old(self)@, Instruction::SaveRegisters(register), 0, final(self)@, r),
    {
        if self.i as usize + register as usize + 1 > MEMORY_SIZE {
            return Err(MachineError::MemoryOutOfRange { start: self.i, len: register as u16 + 1 });
        }
        let ghost old_memory = self.memory@;
        let start = self.i as usize;
        let mut k: usize = 0;
        while k <= register as usize
            invariant
                register < 16,
                start == self.i,
                start + register + 1 <= 4096,
                k <= register + 1,
                self.memory@.len() == 4096,
                self.registers@.len() == 16,
                self.program_counter == old(self).program_counter,
                self.registers == old(self).registers,
                self.delay_timer == old(self).delay_timer,
                self.sound_timer == old(self).sound_timer,
                self.i == old(self).i,
                self.pixel_buffer == old(self).pixel_buffer,
                self.stack == old(self).stack,
                self.current_pressed_key == old(self).current_pressed_key,
                old_memory == old(self).memory@,
                forall|a: int|
                    0 <= a < 4096 ==> #[trigger] self.memory@[a] == if start <= a < start + k {
                        self.registers@[a - start]
                    } else {
                        old_memory[a]
                    },
            decreases register + 1 - k,
        {
            self.memory[start + k] = self.registers[k];
            k = k + 1;
        }
        assert(self.memory@ =~= saved_memory(old_memory, self.registers@, start as int, register as int));
        Ok(None)
    }

    /// Copies memory at I..=I+X into V0..=Vx; I is left as it was.
    fn load_registers(&mut self, register: u8) -> (r: Result<Option<UIAction>, MachineError>)
        requires
            register < 16,
        ensures
            executed(old(self)@, Instruction::LoadRegisters(register), 0, final(self)@, r),
    {
        if self.i as usize + register as usize + 1 > MEMORY_SIZE {
            return Err(MachineError::MemoryOutOfRange { start: self.i, len: register as u16 + 1 });
        }
        let ghost old_registers = self.registers@;
        let start = self.i as usize;
        let mut k: usize = 0;
        while k <= register as usize
            invariant
                register < 16,
                start == self.i,
                start + register + 1 <= 4096,
                k <= register + 1,
                self.memory@.len() == 4096,
                self.registers@.len() == 16,
                self.program_counter == old(self).program_counter,
                self.memory == old(self).memory,
                self.delay_timer == old(self).delay_timer,
                self.sound_timer == old(self).sound_timer,
                self.i == old(self).i,
                self.pixel_buffer == old(self).pixel_buffer,
                self.stack == old(self).stack,
                self.current_pressed_key == old(self).current_pressed_key,
                old_registers == old(self).registers@,
                forall|r: int|
                    0 <= r < 16 ==> #[trigger] self.registers@[r] == if r < k {
                        self.memory@[start + r]
                    } else {
                        old_registers[r]
                    },
            decreases register + 1 - k,
        {
            self.registers[k] = self.memory[start + k];
            k = k + 1;
        }
        assert(self.registers@ =~= loaded_registers(self.memory@, old_registers, start as int, register as int));
        Ok(None)
    }
}

/// The built-in font: sixteen 5-byte glyphs for the hex digits 0 to F.
pub open spec fn font_table() -> Seq<u8> {
    seq![
        0xF0u8, 0x90, 0x90, 0x90, 0xF0, 0x20, 0x60, 0x20, 0x20, 0x70,
        0xF0, 0x10, 0xF0, 0x80, 0xF0, 0xF0, 0x10, 0xF0, 0x10, 0xF0,
        0x90, 0x90, 0xF0, 0x10, 0x10, 0xF0, 0x80, 0xF0, 0x10, 0xF0,
        0xF0, 0x80, 0xF0, 0x90, 0xF0, 0xF0, 0x10, 0x20, 0x40, 0x40,
        0xF0, 0x90, 0xF0, 0x90, 0xF0, 0xF0, 0x90, 0xF0, 0x10, 0xF0,
        0xF0, 0x90, 0xF0, 0x90, 0x90, 0xE0, 0x90, 0xE0, 0x90, 0xE0,
        0xF0, 0x80, 0x80, 0x80, 0xF0, 0xE0, 0x90, 0x90, 0x90, 0xE0,
        0xF0, 0x80, 0xF0, 0x80, 0xF0, 0xF0, 0x80, 0xF0, 0x80, 0x80,
    ]
}

/// Memory with the font table written at 0x50..0xA0 and everything else kept.
pub open spec fn with_font(m: Seq<u8>) -> Seq<u8> {
    Seq::new(m.len(), |a: int| if 0x50 <= a < 0xa0 { font_table()[a - 0x50] } else { m[a] })
}

/// Memory of a freshly loaded machine: the font, the program image at 0x200, zero elsewhere.
pub open spec fn initial_memory(program: Seq<u8>) -> Seq<u8> {
    Seq::new(
        4096,
        |a: int|
            if 0x50 <= a < 0xa0 {
                font_table()[a - 0x50]
            } else if 0x200 <= a < 0x200 + program.len() {
                program[a - 0x200]
            } else {
                0u8
            },
    )
}

/// A freshly loaded machine: PC at 0x200, everything else zero, empty or unlit.
pub open spec fn initial_state(program: Seq<u8>) -> MachineView {
    MachineView {
        memory: initial_memory(program),
        pc: 0x200,
        registers: Seq::new(16, |r: int| 0u8),
        i: 0,
        delay: 0,
        sound: 0,
        frame: blank_frame(),
        stack: Seq::empty(),
        key: None,
    }
}

/// Whether a step from `s` with `random` that reached `t` and answered `r` did what
/// `step_spec` prescribes, on success and on a fault alike.
pub open spec fn stepped(
    s: MachineView,
    random: u8,
    t: MachineView,
    r: Result<Option<UIAction>, MachineError>,
) -> bool {
    (t, r) == step_spec(s, random)
}

/// Writes the font table into memory at 0x50.
pub fn copy_font_data(memory: &mut [u8; 4096])
    ensures
        final(memory)@ == with_font(old(memory)@),
{
    let font_data: [u8; 80] = [
        0xF0, 0x90, 0x90, 0x90, 0xF0, // 0
        0x20, 0x60, 0x20, 0x20, 0x70, // 1
        0xF0, 0x10, 0xF0, 0x80, 0xF0, // 2
        0xF0, 0x10, 0xF0, 0x10, 0xF0, // 3
        0x90, 0x90, 0xF0, 0x10, 0x10, // 4
        0xF0, 0x80, 0xF0, 0x10, 0xF0, // 5
        0xF0, 0x80, 0xF0, 0x90, 0xF0, // 6
        0xF0, 0x10, 0x20, 0x40, 0x40, // 7
        0xF0, 0x90, 0xF0, 0x90, 0xF0, // 8
        0xF0, 0x90, 0xF0, 0x10, 0xF0, // 9
        0xF0, 0x90, 0xF0, 0x90, 0x90, // A
        0xE0, 0x90, 0xE0, 0x90, 0xE0, // B
        0xF0, 0x80, 0x80, 0x80, 0xF0, // C
        0xE0, 0x90, 0x90, 0x90, 0xE0, // D
        0xF0, 0x80, 0xF0, 0x80, 0xF0, // E
        0xF0, 0x80, 0xF0, 0x80, 0x80, // F
    ];
    assert(font_data@ =~= font_table());
    let ghost before = memory@;
    let base = FONT_STARTING_ADDRESS as usize;
    let mut index: usize = 0;
    while index < 80
        invariant
            base == 0x50,
            index <= 80,
            font_data@ == font_table(),
            forall|a: int|
                0 <= a < 4096 ==> #[trigger] memory@[a] == if base <= a < base + index {
                    font_table()[a - base]
                } else {
                    before[a]
                },
        decreases 80 - index,
    {
        memory[base + index] = font_data[index];
        index = index + 1;
    }
    assert(memory@ =~= with_font(before));
}

impl Machine {
    /// Builds a machine with `program` copied to 0x200 and the font at 0x50.
    /// Fails exactly when the image is longer than the 3584 bytes above the reserved region.
    pub fn load(program: &[u8]) -> (r: Result<Machine, LoadError>)
        ensures
            program@.len() > 3584 ==> r == Err::<Machine, LoadError>(
                LoadError::ProgramTooLarge { size: program@.len() as usize },
            ),
            program@.len() <= 3584 ==> (r matches Ok(m) && m@ == initial_state(program@)),
    {
        if program.len() > MAX_PROGRAM_SIZE {
            return Err(LoadError::ProgramTooLarge { size: program.len() });
        }
        let mut memory = [0u8; 4096];
        let base = PROGRAM_STARTING_ADDRESS as usize;
        let mut index: usize = 0;
        while index < program.len()
            invariant
                base == 0x200,
                index <= program@.len() <= 3584,
                forall|a: int|
                    0 <= a < 4096 ==> #[trigger] memory@[a] == if base <= a < base + index {
                        program@[a - base]
                    } else {
                        0u8
                    },
            decreases program@.len() - index,
        {
            memory[base + index] = program[index];
            index = index + 1;
        }
        copy_font_data(&mut memory);
        assert(memory@ =~= initial_memory(program@));
        let m = Machine {
            memory,
            program_counter: PROGRAM_STARTING_ADDRESS,
            registers: [0; 16],
            delay_timer: 0,
            sound_timer: 0,
            i: 0,
            pixel_buffer: [[false; 64]; 32],
            stack: Vec::new(),
            current_pressed_key: None,
        };
        assert(m.registers@ =~= Seq::new(16, |r: int| 0u8));
        assert(frame_view(m.pixel_buffer) =~~= blank_frame());
        assert(m.stack@ =~= Seq::<u16>::empty());
        Ok(m)
    }

    /// Runs one cycle with `random` as the byte that set-random masks: fetch the word at PC,
    /// advance PC by 2, decode, count both timers down once, execute.
    /// The timers count down on every cycle, a faulting one too.
    pub fn step_with_random(&mut self, random: u8) -> (r: Result<Option<UIAction>, MachineError>)
        ensures
            stepped(old(self)@, random, final(self)@, r),
    {
        let pc = self.program_counter;
        let delay = self.delay_timer;
        let sound = self.sound_timer;
        self.delay_timer = if delay > 0 { delay - 1 } else { 0 };
        self.sound_timer = if sound > 0 { sound - 1 } else { 0 };
        if pc as usize + 2 > MEMORY_SIZE {
            return Err(MachineError::MemoryOutOfRange { start: pc, len: 2 });
        }
        let a = self.memory[pc as usize];
        let b = self.memory[pc as usize + 1];
        let opcode = ((a as u16) << 8) | b as u16;
        assert(opcode == a * 256 + b) by (bit_vector)
            requires
                opcode == ((a as u16) << 8) | b as u16,
        ;
        self.program_counter = pc + 2;
        assert(self@ == old(self)@.advance());
        match parse_opcode(opcode) {
            Some(instruction) => self.handle_instruction(instruction, random),
            None => Err(MachineError::UnknownOpcode { opcode, address: pc }),
        }
    }

    /// Runs one cycle; a set-random instruction masks a byte drawn from the thread's
    /// random generator. The outcome is that of `step_with_random` for some byte.
    pub fn step(&mut self) -> (r: Result<Option<UIAction>, MachineError>)
        ensures
            exists|random: u8| stepped(old(self)@, random, final(self)@, r),
    {
        let random = random_byte();
        self.step_with_random(random)
    }

    /// Latches `key` as the pressed key, replacing any earlier one.
    pub fn key_press(&mut self, key: u8)
        requires
            key < 16,
        ensures
            final(self)@ == (MachineView { key: Some(key), ..old(self)@ }),
    {
        self.current_pressed_key = Some(key);
    }

    /// Clears the latch, whichever key is named: only one key is tracked.
    pub fn key_release(&mut self, key: u8)
        requires
            key < 16,
        ensures
            final(self)@ == (MachineView { key: None, ..old(self)@ }),
    {
        self.current_pressed_key = None;
    }

    /// The frame buffer, for presentation.
    pub fn get_pixel_buffer(&self) -> (r: &PixelBuffer)
        ensures
            frame_view(*r) == self@.frame,
    {
        &self.pixel_buffer
    }

    /// Whether the sound timer is nonzero, that is, whether the machine is beeping.
    pub fn is_sound_playing(&self) -> (r: bool)
        ensures
            r == (self@.sound > 0),
    {
        self.sound_timer > 0
    }

    /// Register Vx.
    pub fn register(&self, x: u8) -> (r: u8)
        requires
            x < 16,
        ensures
            r == self@.reg(x),
    {
        self.registers[x as usize]
    }

    /// The program counter.
    pub fn program_counter(&self) -> (r: u16)
        ensures
            r == self@.pc,
    {
        self.program_counter
    }

    /// The index register I.
    pub fn index_register(&self) -> (r: u16)
        ensures
            r == self@.i,
    {
        self.i
    }

    /// The delay timer.
    pub fn delay_timer(&self) -> (r: u8)
        ensures
            r == self@.delay,
    {
        self.delay_timer
    }

    /// The sound timer.
    pub fn sound_timer(&self) -> (r: u8)
        ensures
            r == self@.sound,
    {
        self.sound_timer
    }

    /// How many return addresses the call stack holds.
    pub fn stack_depth(&self) -> (r: usize)
        ensures
            r == self@.stack.len(),
    {
        self.stack.len()
    }

    /// The latched key, if any.
    pub fn pressed_key(&self) -> (r: Option<u8>)
        ensures
            r == self@.key,
    {
        self.current_pressed_key
    }

    /// The byte at `address`.
    pub fn memory_at(&self, address: u16) -> (r: u8)
        requires
            address < 4096,
        ensures
            r == self@.memory[address as int],
    {
        self.memory[address as usize]
    }
}

} // verus!
