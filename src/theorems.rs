use vstd::arithmetic::div_mod::lemma_fundamental_div_mod_converse;
use vstd::prelude::*;

use crate::error::Error;
use crate::semantics::{
    address, cycle, draw_x, draw_y, drawn, execute, family, low_byte, nibble, reg_x, reg_y,
    Chip8View, FLAG, NUM_REGISTERS,
};
use crate::memory::MEMORY_SIZE;
use crate::screen::{Color, SCREEN_SIZE, SCREEN_WIDTH};

verus! {

/// The instruction word with nibbles `f`, `x`, `y`, `n`, most significant first.
pub open spec fn instruction_word(f: int, x: int, y: int, n: int) -> u16 {
    (f * 0x1000 + x * 0x100 + y * 0x10 + n) as u16
}

/// Decoding an instruction word gives back the nibbles it was built from.
pub proof fn lemma_decode(f: int, x: int, y: int, n: int)
    requires
        0 <= f < 16,
        0 <= x < 16,
        0 <= y < 16,
        0 <= n < 16,
    ensures
        family(instruction_word(f, x, y, n)) == f,
        reg_x(instruction_word(f, x, y, n)) == x,
        reg_y(instruction_word(f, x, y, n)) == y,
        nibble(instruction_word(f, x, y, n)) == n,
        low_byte(instruction_word(f, x, y, n)) == y * 0x10 + n,
        address(instruction_word(f, x, y, n)) == x * 0x100 + y * 0x10 + n,
{
    let w = f * 0x1000 + x * 0x100 + y * 0x10 + n;
    assert(0 <= w < 0x10000);
    lemma_fundamental_div_mod_converse(w, 0x1000, f, x * 0x100 + y * 0x10 + n);
    lemma_fundamental_div_mod_converse(w, 0x100, f * 0x10 + x, y * 0x10 + n);
    lemma_fundamental_div_mod_converse(w / 0x100, 0x10, f, x);
    lemma_fundamental_div_mod_converse(w, 0x10, f * 0x100 + x * 0x10 + y, n);
    lemma_fundamental_div_mod_converse(w / 0x10, 0x10, f * 0x10 + x, y);
}

/// `8xy4` adds with carry: for all bytes `a` in `Vx` and `b` in `Vy`, `Vx` becomes
/// `(a + b) mod 256` and `VF` becomes 1 exactly when `a + b > 255`, else 0.
pub proof fn lemma_add_with_carry(s: Chip8View, x: int, y: int, a: u8, b: u8, random: u8)
    requires
        s.wf(),
        0 <= x < FLAG,
        0 <= y < NUM_REGISTERS,
        s.v[x] == a,
        s.v[y] == b,
    ensures
        execute(s, instruction_word(8, x, y, 4), random) matches Ok(t) && {
            &&& t.v[x] == (a + b) % 256
            &&& t.v[FLAG as int] == (if a + b > 255 { 1u8 } else { 0u8 })
        },
{
    lemma_decode(8, x, y, 4);
}

/// `8xy5` subtracts with borrow: for all bytes `a` in `Vx` and `b` in `Vy`, `Vx` becomes
/// `(a - b) mod 256` and `VF` becomes 1 exactly when `a >= b` (no borrow), else 0.
pub proof fn lemma_subtract_with_borrow(s: Chip8View, x: int, y: int, a: u8, b: u8, random: u8)
    requires
        s.wf(),
        0 <= x < FLAG,
        0 <= y < NUM_REGISTERS,
        s.v[x] == a,
        s.v[y] == b,
    ensures
        execute(s, instruction_word(8, x, y, 5), random) matches Ok(t) && {
            &&& t.v[x] == (a - b) % 256
            &&& t.v[FLAG as int] == (if a >= b { 1u8 } else { 0u8 })
        },
{
    lemma_decode(8, x, y, 5);
}

/// `Dxyn` sets `VF` to 1 exactly when at least one bit of the sprite was drawn onto a
/// pixel that was on before, and to 0 otherwise.
pub proof fn lemma_draw_collision(s: Chip8View, x: int, y: int, n: int, random: u8)
    requires
        s.wf(),
        0 <= x < 16,
        0 <= y < 16,
        0 <= n < 16,
    ensures
        execute(s, instruction_word(0xD, x, y, n), random) matches Ok(t) && t.v[FLAG as int] == (
        if exists|k: int|
            0 <= k < SCREEN_SIZE && drawn(
                s,
                draw_x(s, instruction_word(0xD, x, y, n)),
                draw_y(s, instruction_word(0xD, x, y, n)),
                n,
                k,
            ) && s.pixels[k] == Color::White {
            1u8
        } else {
            0u8
        }),
{
    lemma_decode(0xD, x, y, n);
}

/// Drawing the same sprite twice at the same place puts back every pixel it touched,
/// and the second draw reports a collision exactly when the first turned some pixel on.
/// So on pixels that were off, the two draws leave them off, with a collision reported
/// whenever anything was drawn.
pub proof fn lemma_draw_twice(s: Chip8View, x: int, y: int, n: int, r1: u8, r2: u8)
    requires
        s.wf(),
        0 <= x < FLAG,
        0 <= y < FLAG,
        0 <= n < 16,
    ensures
        execute(s, instruction_word(0xD, x, y, n), r1) matches Ok(t) && execute(
            t,
            instruction_word(0xD, x, y, n),
            r2,
        ) matches Ok(u) && {
            &&& u.pixels == s.pixels
            &&& u.v[FLAG as int] == (if exists|k: int|
                0 <= k < SCREEN_SIZE && drawn(
                    s,
                    draw_x(s, instruction_word(0xD, x, y, n)),
                    draw_y(s, instruction_word(0xD, x, y, n)),
                    n,
                    k,
                ) && s.pixels[k] == Color::Black {
                1u8
            } else {
                0u8
            })
        },
{
    let w = instruction_word(0xD, x, y, n);
    lemma_decode(0xD, x, y, n);
    let t = execute(s, w, r1)->Ok_0;
    let u = execute(t, w, r2)->Ok_0;
    let x0 = draw_x(s, w);
    let y0 = draw_y(s, w);
    assert(draw_x(t, w) == x0);
    assert(draw_y(t, w) == y0);
    assert forall|k: int| drawn(t, x0, y0, n, k) == drawn(s, x0, y0, n, k) by {}
    assert(u.pixels =~= s.pixels);
    let on_in_t = exists|k: int|
        0 <= k < SCREEN_SIZE && drawn(t, x0, y0, n, k) && t.pixels[k] == Color::White;
    let off_in_s = exists|k: int|
        0 <= k < SCREEN_SIZE && drawn(s, x0, y0, n, k) && s.pixels[k] == Color::Black;
    if on_in_t {
        let k = choose|k: int|
            0 <= k < SCREEN_SIZE && drawn(t, x0, y0, n, k) && t.pixels[k] == Color::White;
        assert(drawn(s, x0, y0, n, k) && s.pixels[k] == Color::Black);
    }
    if off_in_s {
        let k = choose|k: int|
            0 <= k < SCREEN_SIZE && drawn(s, x0, y0, n, k) && s.pixels[k] == Color::Black;
        assert(drawn(t, x0, y0, n, k) && t.pixels[k] == Color::White);
    }
}

/// Clipping: a sprite drawn at column `SCREEN_WIDTH - 1` changes no pixel outside that
/// last column; nothing wraps round to the left edge.
pub proof fn lemma_draw_clips(s: Chip8View, x: int, y: int, n: int, random: u8)
    requires
        s.wf(),
        0 <= x < 16,
        0 <= y < 16,
        0 <= n < 16,
        (s.v[x] as int) % (SCREEN_WIDTH as int) == SCREEN_WIDTH - 1,
    ensures
        execute(s, instruction_word(0xD, x, y, n), random) matches Ok(t) && forall|k: int|
            0 <= k < SCREEN_SIZE && k % (SCREEN_WIDTH as int) != SCREEN_WIDTH - 1
                ==> #[trigger] t.pixels[k] == s.pixels[k],
{
    lemma_decode(0xD, x, y, n);
}

/// A return (`00EE`) with an empty call stack fails with `CallStackUnderflow` at the
/// return's own address; registers, memory, `I`, the stack, the timers and the screen
/// stay as they were, and the program counter is past the return.
pub proof fn lemma_return_underflow(s: Chip8View, random: u8)
    requires
        s.wf(),
        s.pc + 1 < MEMORY_SIZE,
        s.ram[s.pc as int] == 0x00,
        s.ram[s.pc + 1] == 0xEE,
        s.call_stack.len() == 0,
    ensures
        ({
            let (t, r) = cycle(s, random);
            &&& r == Err::<(), Error>(Error::CallStackUnderflow { address: s.pc as usize })
            &&& t == s.with_pc(s.pc + 2)
        }),
{
}

/// `Fx55` with `x = 3`: with the load/store quirk, `I` is unchanged; without, it grows
/// by 4 (modulo 2^16).
pub proof fn lemma_store_quirk(s: Chip8View, random: u8)
    requires
        s.wf(),
    ensures
        execute(s, instruction_word(0xF, 3, 5, 5), random) matches Ok(t) && {
            &&& s.load_store_quirks ==> t.i == s.i
            &&& !s.load_store_quirks ==> t.i == (s.i + 4) % 0x10000
        },
{
    lemma_decode(0xF, 3, 5, 5);
}

/// Shifting a byte left by one doubles it modulo 256, and its top bit is the carry.
proof fn lemma_shift_left_byte(a: u8)
    ensures
        a << 1u8 == (a * 2) % 256,
        (a & 0x80 != 0) == (a / 128 == 1),
{
    assert(a << 1u8 == (a * 2) % 256) by (bit_vector);
    assert((a & 0x80 != 0) == (a / 128 == 1)) by (bit_vector);
}

/// `8xyE` with the shift quirk doubles `Vx` itself; without it, `Vx` becomes `Vy`
/// doubled. Either way modulo 256, with the bit shifted out in `VF`.
pub proof fn lemma_shift_left_quirk(s: Chip8View, x: int, y: int, random: u8)
    requires
        s.wf(),
        0 <= x < FLAG,
        0 <= y < FLAG,
    ensures
        execute(s, instruction_word(8, x, y, 0xE), random) matches Ok(t) && {
            &&& s.shift_quirks ==> t.v[x] == (s.v[x] * 2) % 256 && t.v[FLAG as int] == s.v[x] / 128
            &&& !s.shift_quirks ==> t.v[x] == (s.v[y] * 2) % 256 && t.v[FLAG as int] == s.v[y] / 128
        },
{
    lemma_decode(8, x, y, 0xE);
    lemma_shift_left_byte(s.v[x]);
    lemma_shift_left_byte(s.v[y]);
}

} // verus!
