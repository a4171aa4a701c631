//! Properties of the machine that relate several instructions or steps, proved over the model.
use vstd::prelude::*;
use crate::display::{row_collides, sprite_bit, xor_row};
use crate::instruction::{decode, Instruction};
use crate::program::{draw_collides, drawn_frame, execute_spec, in_memory, step_spec, tick, MachineView};

verus! {

/// Adding registers: Vx becomes (a + b) mod 256 and VF is 1 exactly when a + b exceeds 255,
/// for a = Vx and b = Vy before the instruction (Vx other than VF).
pub proof fn lemma_add_registers(s: MachineView, x: u8, y: u8, random: u8)
    requires
        s.wf(),
        x < 15,
        y < 16,
    ensures
        ({
            let (a, b) = (s.reg(x), s.reg(y));
            execute_spec(s, Instruction::AddRegisters { register_x: x, register_y: y }, random) matches Ok(t)
                && t.reg(x) == (a + b) % 256 && t.reg(15) == (if a + b > 255 { 1u8 } else { 0u8 })
        }),
{
}

/// Subtracting Vy from Vx: Vx becomes (a - b) mod 256 and VF is 1 exactly when a >= b,
/// for a = Vx and b = Vy before the instruction (Vx other than VF).
pub proof fn lemma_subtract_x_minus_y(s: MachineView, x: u8, y: u8, random: u8)
    requires
        s.wf(),
        x < 15,
        y < 16,
    ensures
        ({
            let (a, b) = (s.reg(x), s.reg(y));
            execute_spec(s, Instruction::SubtractXMinusY { register_x: x, register_y: y }, random) matches Ok(t)
                && t.reg(x) == (a - b) % 256 && t.reg(15) == (if a >= b { 1u8 } else { 0u8 })
        }),
{
}

/// Subtracting Vx from Vy: Vx becomes (b - a) mod 256 and VF is 1 exactly when b >= a,
/// for a = Vx and b = Vy before the instruction (Vx other than VF).
pub proof fn lemma_subtract_y_minus_x(s: MachineView, x: u8, y: u8, random: u8)
    requires
        s.wf(),
        x < 15,
        y < 16,
    ensures
        ({
            let (a, b) = (s.reg(x), s.reg(y));
            execute_spec(s, Instruction::SubtractYMinusX { register_x: x, register_y: y }, random) matches Ok(t)
                && t.reg(x) == (b - a) % 256 && t.reg(15) == (if b >= a { 1u8 } else { 0u8 })
        }),
{
}

/// Whether cell (`r`, `c`) of the grid is set by an `n`-row sprite read from memory at `i`
/// and placed with its top-left at (`x0`, `y0`).
pub open spec fn sprite_covers(m: Seq<u8>, i: int, x0: int, y0: int, n: int, r: int, c: int) -> bool {
    y0 <= r < y0 + n && x0 <= c < x0 + 8 && sprite_bit(m[i + r - y0], c - x0)
}

/// XORing the same sprite row in twice gives the row back.
pub proof fn lemma_xor_row_twice(row: Seq<bool>, x0: int, byte: u8)
    ensures
        xor_row(xor_row(row, x0, byte), x0, byte) == row,
{
    assert(xor_row(xor_row(row, x0, byte), x0, byte) =~= row);
}

/// A draw clips and does not wrap: every cell of the 64x32 grid flips exactly when the
/// sprite covers it at its own position, so sprite columns past x = 63 and rows past y = 31
/// reach no cell; all other cells keep their state.
pub proof fn lemma_draw_clips(s: MachineView, x: u8, y: u8, n: u8, random: u8)
    requires
        s.wf(),
        x < 16,
        y < 16,
        execute_spec(s, Instruction::Draw { register_x: x, register_y: y, bytes: n }, random) is Ok,
    ensures
        ({
            let t = execute_spec(s, Instruction::Draw { register_x: x, register_y: y, bytes: n }, random)->Ok_0;
            let (x0, y0) = ((s.reg(x) % 64) as int, (s.reg(y) % 32) as int);
            &&& t.wf()
            &&& forall|r: int, c: int|
                0 <= r < 32 && 0 <= c < 64 ==> #[trigger] t.frame[r][c] == (s.frame[r][c] != sprite_covers(
                    s.memory,
                    s.i as int,
                    x0,
                    y0,
                    n as int,
                    r,
                    c,
                ))
        }),
{
}

/// Drawing the same sprite twice at the same place (Vx and Vy other than VF) restores every
/// cell, and the second draw sets VF to 1 exactly when some cell the sprite covers was unlit
/// before the first draw, that is, lit between the two.
pub proof fn lemma_draw_twice(s: MachineView, x: u8, y: u8, n: u8, random: u8)
    requires
        s.wf(),
        x < 15,
        y < 15,
        execute_spec(s, Instruction::Draw { register_x: x, register_y: y, bytes: n }, random) is Ok,
    ensures
        ({
            let ins = Instruction::Draw { register_x: x, register_y: y, bytes: n };
            let t = execute_spec(s, ins, random)->Ok_0;
            let (x0, y0) = ((s.reg(x) % 64) as int, (s.reg(y) % 32) as int);
            execute_spec(t, ins, random) matches Ok(u) && u.frame == s.frame && (u.reg(15) == 1
                <==> exists|r: int, c: int|
                0 <= r < 32 && 0 <= c < 64 && sprite_covers(s.memory, s.i as int, x0, y0, n as int, r, c)
                    && !#[trigger] s.frame[r][c])
        }),
{
    let ins = Instruction::Draw { register_x: x, register_y: y, bytes: n };
    let t = execute_spec(s, ins, random)->Ok_0;
    let (x0, y0) = ((s.reg(x) % 64) as int, (s.reg(y) % 32) as int);
    let (m, i) = (s.memory, s.i as int);
    assert(t.reg(x) == s.reg(x) && t.reg(y) == s.reg(y));
    let u = execute_spec(t, ins, random)->Ok_0;
    assert forall|r: int| 0 <= r < 32 implies #[trigger] u.frame[r] == s.frame[r] by {
        if y0 <= r < y0 + n {
            lemma_xor_row_twice(s.frame[r], x0, m[i + r - y0]);
        }
    }
    assert(u.frame =~= s.frame);
    let lit_between = exists|r: int, c: int|
        0 <= r < 32 && 0 <= c < 64 && sprite_covers(m, i, x0, y0, n as int, r, c) && !#[trigger] s.frame[r][c];
    if draw_collides(t.frame, m, i, x0, y0, n as int) {
        let r = choose|r: int| y0 <= r < y0 + n && 0 <= r < t.frame.len() && #[trigger] row_collides(
            t.frame[r], x0, m[i + r - y0]);
        let c = choose|c: int| 0 <= c < t.frame[r].len() && x0 <= c < x0 + 8 && sprite_bit(m[i + r - y0], c - x0)
            && #[trigger] t.frame[r][c];
        assert(sprite_covers(m, i, x0, y0, n as int, r, c) && !s.frame[r][c]);
        assert(lit_between);
    }
    if lit_between {
        let (r, c) = choose|r: int, c: int|
            0 <= r < 32 && 0 <= c < 64 && sprite_covers(m, i, x0, y0, n as int, r, c) && !#[trigger] s.frame[r][c];
        assert(t.frame[r][c]);
        assert(row_collides(t.frame[r], x0, m[i + r - y0]));
        assert(draw_collides(t.frame, m, i, x0, y0, n as int));
    }
}

/// A step that executes `call NNN`, followed by a step that executes `return` at NNN, leaves
/// PC at the instruction after the call and the call stack as it was.
pub proof fn lemma_call_then_return(s: MachineView, a: u16, random1: u8, random2: u8)
    requires
        s.wf(),
        s.pc + 2 <= 4096,
        decode(s.fetch()) == Some(Instruction::CallSubroutineAtAddress(a)),
        a + 2 <= 4096,
        s.memory[a as int] == 0x00,
        s.memory[a + 1] == 0xee,
    ensures
        ({
            let (t, r1) = step_spec(s, random1);
            let (u, r2) = step_spec(t, random2);
            r1 is Ok && r2 is Ok && u.pc == s.pc + 2 && u.stack == s.stack
        }),
{
    let t = step_spec(s, random1).0;
    assert(t.fetch() == 0x00ee);
    assert(decode(0x00ee) == Some(Instruction::ReturnFromSubroutine));
    let u = step_spec(t, random2).0;
    assert(u.stack =~= s.stack);
}

/// The machine after one step call per byte of `randoms`, each masking its byte into
/// set-random, whatever each step answered.
pub open spec fn run(s: MachineView, randoms: Seq<u8>) -> MachineView
    decreases randoms.len(),
{
    if randoms.len() == 0 {
        s
    } else {
        run(step_spec(s, randoms[0]).0, randoms.drop_first())
    }
}

/// Whether an instruction writes a timer.
pub open spec fn sets_timer(ins: Instruction) -> bool {
    ins is SetDelayTimerFromRegister || ins is SetSoundTimerFromRegister
}

/// Whether the step from `s` fetches and decodes an instruction that writes a timer.
pub open spec fn step_sets_timer(s: MachineView) -> bool {
    in_memory(s.pc, 2) && (decode(s.fetch()) matches Some(ins) && sets_timer(ins))
}

/// Whether none of those steps fetches an instruction that writes a timer.
pub open spec fn sets_no_timer(s: MachineView, randoms: Seq<u8>) -> bool
    decreases randoms.len(),
{
    randoms.len() == 0 || (!step_sets_timer(s) && sets_no_timer(
        step_spec(s, randoms[0]).0,
        randoms.drop_first(),
    ))
}

/// A timer after `k` count-downs from `t`: it stops at zero and never wraps.
pub open spec fn counted_down(t: u8, k: int) -> u8 {
    if t > k { (t - k) as u8 } else { 0 }
}

/// Steps that write no timer count both timers down by one each, stopping at zero, whether
/// they succeed or fault: after at least 255 of them both timers read 0.
pub proof fn lemma_timers_stop_at_zero(s: MachineView, randoms: Seq<u8>)
    requires
        s.wf(),
        sets_no_timer(s, randoms),
    ensures
        ({
            let t = run(s, randoms);
            &&& t.delay == counted_down(s.delay, randoms.len() as int)
            &&& t.sound == counted_down(s.sound, randoms.len() as int)
            &&& randoms.len() >= 255 ==> t.delay == 0 && t.sound == 0
        }),
    decreases randoms.len(),
{
    if randoms.len() > 0 {
        let t = step_spec(s, randoms[0]).0;
        assert(t.wf());
        assert(t.delay == tick(s.delay) && t.sound == tick(s.sound));
        lemma_timers_stop_at_zero(t, randoms.drop_first());
    }
}

} // verus!
