use vstd::prelude::*;

use crate::error::Error;
use crate::memory::MEMORY_SIZE;
use crate::screen::{all_black, color_xor, Color, SCREEN_HEIGHT, SCREEN_SIZE, SCREEN_WIDTH};

verus! {

/// The number of general-purpose registers `V0` to `VF`.
pub const NUM_REGISTERS: usize = 16;

/// The number of keys on the hexadecimal keypad.
pub const NUM_KEYS: usize = 16;

/// The register `VF`, which carry, borrow and collision flags overwrite.
pub const FLAG: usize = 0xF;

/// The machine as the contracts see it.
pub struct Chip8View {
    /// The 4096 bytes of memory.
    pub ram: Seq<u8>,
    /// The program counter.
    pub pc: u16,
    /// The registers `V0` to `VF`.
    pub v: Seq<u8>,
    /// The index register `I`.
    pub i: u16,
    /// The return addresses, the most recent last.
    pub call_stack: Seq<u16>,
    /// The delay timer.
    pub delay_timer: u8,
    /// The sound timer.
    pub sound_timer: u8,
    /// `keys[k]` holds while key `k` is pressed.
    pub keys: Seq<bool>,
    /// The screen, row by row.
    pub pixels: Seq<Color>,
    /// Whether `8xy6` and `8xyE` shift `Vx` itself rather than `Vy`.
    pub shift_quirks: bool,
    /// Whether `Fx55` and `Fx65` leave `I` unchanged.
    pub load_store_quirks: bool,
}

impl Chip8View {
    /// The sizes that every machine has.
    pub open spec fn wf(self) -> bool {
        &&& self.ram.len() == MEMORY_SIZE
        &&& self.v.len() == NUM_REGISTERS
        &&& self.keys.len() == NUM_KEYS
        &&& self.pixels.len() == SCREEN_SIZE
    }

    /// The same machine with register `x` set to `b`.
    pub open spec fn with_v(self, x: int, b: u8) -> Chip8View {
        Chip8View { v: self.v.update(x, b), ..self }
    }

    /// The same machine with the program counter set to `pc`.
    pub open spec fn with_pc(self, pc: int) -> Chip8View {
        Chip8View { pc: pc as u16, ..self }
    }

    /// The same machine, past the next instruction if `cond` holds.
    pub open spec fn skip_if(self, cond: bool) -> Chip8View {
        if cond {
            self.with_pc(self.pc + 2)
        } else {
            self
        }
    }
}

/// The operation family of an instruction word: its top nibble.
pub open spec fn family(w: u16) -> int {
    (w / 0x1000) as int
}

/// The `x` operand: the second nibble.
pub open spec fn reg_x(w: u16) -> int {
    ((w / 0x100) % 0x10) as int
}

/// The `y` operand: the third nibble.
pub open spec fn reg_y(w: u16) -> int {
    ((w / 0x10) % 0x10) as int
}

/// The `n` operand: the low nibble.
pub open spec fn nibble(w: u16) -> int {
    (w % 0x10) as int
}

/// The `kk` operand: the low byte.
pub open spec fn low_byte(w: u16) -> u8 {
    (w % 0x100) as u8
}

/// The `nnn` operand: the low twelve bits.
pub open spec fn address(w: u16) -> int {
    (w % 0x1000) as int
}

/// The address of the instruction that runs, once the program counter has moved past it.
pub open spec fn here(s: Chip8View) -> usize {
    (s.pc - 2) as usize
}

/// The error for a word that matches no pattern of its family.
pub open spec fn not_well_formed(s: Chip8View, w: u16) -> Error {
    Error::NotWellFormedInstruction { instruction: w, pc: here(s) }
}

/// The flag value of a condition: 1 if it holds, else 0.
pub open spec fn flag(c: bool) -> u8 {
    if c {
        1
    } else {
        0
    }
}

/// Family `0`: clear the screen (`00E0`) or return from a subroutine (`00EE`).
pub open spec fn execute_system(s: Chip8View, w: u16) -> Result<Chip8View, Error> {
    if address(w) == 0x0E0 {
        Ok(Chip8View { pixels: all_black(), ..s })
    } else if address(w) == 0x0EE {
        if s.call_stack.len() == 0 {
            Err(Error::CallStackUnderflow { address: here(s) })
        } else {
            Ok(Chip8View { pc: s.call_stack.last(), call_stack: s.call_stack.drop_last(), ..s })
        }
    } else {
        Err(Error::UnsupportedInstruction { instruction: w, address: here(s) })
    }
}

/// Family `8`: operations between two registers.
pub open spec fn execute_alu(s: Chip8View, w: u16) -> Result<Chip8View, Error> {
    let x = reg_x(w);
    let y = reg_y(w);
    let vx = s.v[x];
    let vy = s.v[y];
    let f = FLAG as int;
    if nibble(w) == 0x0 {
        Ok(s.with_v(x, vy))
    } else if nibble(w) == 0x1 {
        Ok(s.with_v(x, vx | vy))
    } else if nibble(w) == 0x2 {
        Ok(s.with_v(x, vx & vy))
    } else if nibble(w) == 0x3 {
        Ok(s.with_v(x, vx ^ vy))
    } else if nibble(w) == 0x4 {
        Ok(s.with_v(x, ((vx + vy) % 256) as u8).with_v(f, flag(vx + vy > 255)))
    } else if nibble(w) == 0x5 {
        Ok(s.with_v(x, ((vx - vy) % 256) as u8).with_v(f, flag(vx >= vy)))
    } else if nibble(w) == 0x6 {
        // The flag is written first, then the shifted register is read.
        let src = if s.shift_quirks { x } else { y };
        let t = s.with_v(f, s.v[src] & 1);
        Ok(t.with_v(x, t.v[src] >> 1u8))
    } else if nibble(w) == 0x7 {
        Ok(s.with_v(x, ((vy - vx) % 256) as u8).with_v(f, flag(vy >= vx)))
    } else if nibble(w) == 0xE {
        let src = if s.shift_quirks { x } else { y };
        let t = s.with_v(f, flag(s.v[src] & 0x80 != 0));
        Ok(t.with_v(x, t.v[src] << 1u8))
    } else {
        Err(not_well_formed(s, w))
    }
}

/// Family `E`: skip on the state of the key named by `Vx` (taken modulo 16).
pub open spec fn execute_keys(s: Chip8View, w: u16) -> Result<Chip8View, Error> {
    let pressed = s.keys[(s.v[reg_x(w)] % 16) as int];
    if low_byte(w) == 0x9E {
        Ok(s.skip_if(pressed))
    } else if low_byte(w) == 0xA1 {
        Ok(s.skip_if(!pressed))
    } else {
        Err(not_well_formed(s, w))
    }
}

/// The sprite byte of row `row`, read at `I + row` (addresses wrap around memory).
pub open spec fn sprite_byte(s: Chip8View, row: int) -> u8 {
    s.ram[(s.i + row) % (MEMORY_SIZE as int)]
}

/// Whether drawing an `n`-row sprite at `(x0, y0)` toggles pixel `k`: the pixel lies in
/// the sprite's rectangle and its bit in the sprite is set. Only pixels of the screen
/// exist, so what falls outside it is clipped.
pub open spec fn drawn(s: Chip8View, x0: int, y0: int, n: int, k: int) -> bool {
    let px = k % (SCREEN_WIDTH as int);
    let py = k / (SCREEN_WIDTH as int);
    &&& y0 <= py < y0 + n
    &&& x0 <= px < x0 + 8
    &&& sprite_byte(s, py - y0) & (0x80u8 >> ((px - x0) as u8)) != 0
}

/// The screen after the draw: every drawn pixel toggled.
pub open spec fn draw_pixels(s: Chip8View, x0: int, y0: int, n: int) -> Seq<Color> {
    Seq::new(
        SCREEN_SIZE as nat,
        |k: int|
            if drawn(s, x0, y0, n, k) {
                color_xor(s.pixels[k], Color::White)
            } else {
                s.pixels[k]
            },
    )
}

/// Whether the draw toggles a pixel that was on.
pub open spec fn collides(s: Chip8View, x0: int, y0: int, n: int) -> bool {
    exists|k: int| 0 <= k < SCREEN_SIZE && drawn(s, x0, y0, n, k) && s.pixels[k] == Color::White
}

/// The column at which `Dxyn` draws: `Vx` modulo the width.
pub open spec fn draw_x(s: Chip8View, w: u16) -> int {
    (s.v[reg_x(w)] as int) % (SCREEN_WIDTH as int)
}

/// The row at which `Dxyn` draws: `Vy` modulo the height.
pub open spec fn draw_y(s: Chip8View, w: u16) -> int {
    (s.v[reg_y(w)] as int) % (SCREEN_HEIGHT as int)
}

/// `Dxyn`: draw the `n`-row sprite at `I`, at `(Vx, Vy)`; `VF` tells whether a pixel
/// that was on went off.
pub open spec fn execute_draw(s: Chip8View, w: u16) -> Chip8View {
    let x0 = draw_x(s, w);
    let y0 = draw_y(s, w);
    let n = nibble(w);
    Chip8View {
        pixels: draw_pixels(s, x0, y0, n),
        ..s.with_v(FLAG as int, flag(collides(s, x0, y0, n)))
    }
}

/// Whether `k` is the lowest-numbered key that is pressed.
pub open spec fn first_pressed(keys: Seq<bool>, k: int) -> bool {
    &&& 0 <= k < NUM_KEYS
    &&& keys[k]
    &&& forall|j: int| 0 <= j < k ==> !keys[j]
}

/// The lowest-numbered key that is pressed, when some key is.
pub open spec fn lowest_pressed(keys: Seq<bool>) -> int {
    choose|k: int| first_pressed(keys, k)
}

/// Whether some key is pressed.
pub open spec fn any_pressed(keys: Seq<bool>) -> bool {
    exists|k: int| 0 <= k < NUM_KEYS && keys[k]
}

/// The memory address `I + k`, wrapping around memory.
pub open spec fn mem_addr(i: u16, k: int) -> int {
    (i + k) % (MEMORY_SIZE as int)
}

/// The offset of address `a` from `I`, going round memory.
pub open spec fn offset_from(i: u16, a: int) -> int {
    (a - i) % (MEMORY_SIZE as int)
}

/// Memory after `V0..=Vx` are stored at `I..=I + x`.
pub open spec fn stored_ram(s: Chip8View, x: int) -> Seq<u8> {
    Seq::new(
        MEMORY_SIZE as nat,
        |a: int|
            if offset_from(s.i, a) <= x {
                s.v[offset_from(s.i, a)]
            } else {
                s.ram[a]
            },
    )
}

/// The registers after `V0..=Vx` are loaded from `I..=I + x`.
pub open spec fn loaded_v(s: Chip8View, x: int) -> Seq<u8> {
    Seq::new(
        NUM_REGISTERS as nat,
        |k: int|
            if k <= x {
                s.ram[mem_addr(s.i, k)]
            } else {
                s.v[k]
            },
    )
}

/// `I` after a bulk store or load of `V0..=Vx`: unchanged with the load/store quirk,
/// else advanced by `x + 1`.
pub open spec fn advanced_i(s: Chip8View, x: int) -> u16 {
    if s.load_store_quirks {
        s.i
    } else {
        ((s.i + x + 1) % 0x10000) as u16
    }
}

/// Family `F`: timers, waiting for a key, the index register, and memory.
pub open spec fn execute_misc(s: Chip8View, w: u16) -> Result<Chip8View, Error> {
    let x = reg_x(w);
    let vx = s.v[x];
    let kk = low_byte(w);
    if kk == 0x07 {
        Ok(s.with_v(x, s.delay_timer))
    } else if kk == 0x0A {
        if any_pressed(s.keys) {
            Ok(s.with_v(x, lowest_pressed(s.keys) as u8))
        } else {
            // Run this instruction again on the next cycle.
            Ok(s.with_pc(s.pc - 2))
        }
    } else if kk == 0x15 {
        Ok(Chip8View { delay_timer: vx, ..s })
    } else if kk == 0x18 {
        Ok(Chip8View { sound_timer: vx, ..s })
    } else if kk == 0x1E {
        Ok(Chip8View { i: ((s.i + vx) % 0x10000) as u16, ..s })
    } else if kk == 0x29 {
        Ok(Chip8View { i: ((vx % 16) * 5) as u16, ..s })
    } else if kk == 0x33 {
        let ram = s.ram.update(mem_addr(s.i, 0), vx / 100).update(
            mem_addr(s.i, 1),
            vx / 10 % 10,
        ).update(mem_addr(s.i, 2), vx % 10);
        Ok(Chip8View { ram, ..s })
    } else if kk == 0x55 {
        Ok(Chip8View { ram: stored_ram(s, x), i: advanced_i(s, x), ..s })
    } else if kk == 0x65 {
        Ok(Chip8View { v: loaded_v(s, x), i: advanced_i(s, x), ..s })
    } else {
        Err(not_well_formed(s, w))
    }
}

/// One instruction, with the program counter already past it; `random` is the byte that
/// `Cxkk` masks.
pub open spec fn execute(s: Chip8View, w: u16, random: u8) -> Result<Chip8View, Error> {
    let x = reg_x(w);
    let y = reg_y(w);
    let kk = low_byte(w);
    let f = family(w);
    if f == 0x0 {
        execute_system(s, w)
    } else if f == 0x1 {
        Ok(s.with_pc(address(w)))
    } else if f == 0x2 {
        Ok(Chip8View { call_stack: s.call_stack.push(s.pc), ..s.with_pc(address(w)) })
    } else if f == 0x3 {
        Ok(s.skip_if(s.v[x] == kk))
    } else if f == 0x4 {
        Ok(s.skip_if(s.v[x] != kk))
    } else if f == 0x5 {
        if nibble(w) == 0 {
            Ok(s.skip_if(s.v[x] == s.v[y]))
        } else {
            Err(not_well_formed(s, w))
        }
    } else if f == 0x6 {
        Ok(s.with_v(x, kk))
    } else if f == 0x7 {
        Ok(s.with_v(x, ((s.v[x] + kk) % 256) as u8))
    } else if f == 0x8 {
        execute_alu(s, w)
    } else if f == 0x9 {
        if nibble(w) == 0 {
            Ok(s.skip_if(s.v[x] != s.v[y]))
        } else {
            Err(not_well_formed(s, w))
        }
    } else if f == 0xA {
        Ok(Chip8View { i: address(w) as u16, ..s })
    } else if f == 0xB {
        Ok(s.with_pc(address(w) + s.v[0]))
    } else if f == 0xC {
        Ok(s.with_v(x, random & kk))
    } else if f == 0xD {
        Ok(execute_draw(s, w))
    } else if f == 0xE {
        execute_keys(s, w)
    } else {
        execute_misc(s, w)
    }
}

/// The instruction word at the program counter, big-endian, or the address that lies
/// outside memory.
pub open spec fn fetch(s: Chip8View) -> Result<u16, Error> {
    if s.pc >= MEMORY_SIZE {
        Err(Error::InvalidProgramCounter { pc: s.pc as usize })
    } else if s.pc + 1 >= MEMORY_SIZE {
        Err(Error::InvalidProgramCounter { pc: (s.pc + 1) as usize })
    } else {
        Ok((s.ram[s.pc as int] * 256 + s.ram[s.pc + 1]) as u16)
    }
}

/// One fetch-execute cycle: the machine after it, and its outcome. A failed fetch
/// changes nothing; a failed instruction leaves the program counter past it.
pub open spec fn cycle(s: Chip8View, random: u8) -> (Chip8View, Result<(), Error>) {
    match fetch(s) {
        Err(e) => (s, Err(e)),
        Ok(w) => {
            let t = s.with_pc(s.pc + 2);
            match execute(t, w, random) {
                Ok(u) => (u, Ok(())),
                Err(e) => (t, Err(e)),
            }
        },
    }
}

} // verus!
