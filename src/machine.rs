use vstd::prelude::*;

use crate::error::Error;
use crate::memory::{
    initial_memory, initial_ram, MAX_PROGRAM_LEN, MEMORY_SIZE, PROGRAM_START,
    SIZE_OF_SPRITE_FOR_DIGIT,
};
use crate::screen::{
    all_black, color_xor, pixel_index, Color, Screen, SCREEN_HEIGHT, SCREEN_SIZE, SCREEN_WIDTH,
};
use crate::semantics::{
    any_pressed, collides, cycle, draw_pixels, drawn, execute, execute_alu, execute_draw,
    execute_keys, execute_misc, execute_system, family, fetch, first_pressed, lowest_pressed,
    mem_addr, offset_from, sprite_byte, stored_ram, loaded_v, Chip8View, FLAG, NUM_KEYS,
    NUM_REGISTERS,
};
use crate::timers::Timers;

verus! {

/// The pixels of a draw in progress: those drawn before row `row`, column `col` of the
/// sprite are toggled, the others are as they were.
spec fn partial_draw(s: Chip8View, x0: int, y0: int, n: int, row: int, col: int) -> Seq<Color> {
    Seq::new(
        SCREEN_SIZE as nat,
        |k: int|
            if drawn(s, x0, y0, n, k) && before(k, x0, y0, row, col) {
                color_xor(s.pixels[k], Color::White)
            } else {
                s.pixels[k]
            },
    )
}

/// Whether pixel `k` comes before row `row`, column `col` of a sprite at `(x0, y0)`.
spec fn before(k: int, x0: int, y0: int, row: int, col: int) -> bool {
    let px = k % (SCREEN_WIDTH as int);
    let py = k / (SCREEN_WIDTH as int);
    py < y0 + row || (py == y0 + row && px < x0 + col)
}

/// Whether some pixel drawn before row `row`, column `col` was on.
spec fn partial_collides(s: Chip8View, x0: int, y0: int, n: int, row: int, col: int) -> bool {
    exists|k: int|
        0 <= k < SCREEN_SIZE && drawn(s, x0, y0, n, k) && before(k, x0, y0, row, col)
            && s.pixels[k] == Color::White
}

/// A pixel's index gives back its coordinates.
proof fn lemma_pixel_coordinates(px: int, py: int)
    requires
        0 <= px < SCREEN_WIDTH,
        0 <= py < SCREEN_HEIGHT,
    ensures
        0 <= pixel_index(px, py) < SCREEN_SIZE,
        pixel_index(px, py) % (SCREEN_WIDTH as int) == px,
        pixel_index(px, py) / (SCREEN_WIDTH as int) == py,
{
    vstd::arithmetic::div_mod::lemma_fundamental_div_mod_converse(
        pixel_index(px, py),
        SCREEN_WIDTH as int,
        py,
        px,
    );
}

/// Address `a` lies `k` bytes past `i`, going round memory, exactly when it is `I + k`
/// wrapped.
proof fn lemma_offset(i: u16, k: int, a: int)
    requires
        0 <= k < MEMORY_SIZE,
        0 <= a < MEMORY_SIZE,
    ensures
        (offset_from(i, a) == k) <==> (a == mem_addr(i, k)),
        0 <= offset_from(i, a) < MEMORY_SIZE,
{
    let m = MEMORY_SIZE as int;
    vstd::arithmetic::div_mod::lemma_fundamental_div_mod(a - i, m);
    vstd::arithmetic::div_mod::lemma_fundamental_div_mod(i + k, m);
    vstd::arithmetic::div_mod::lemma_mod_bound(a - i, m);
    vstd::arithmetic::div_mod::lemma_mod_bound(i + k, m);
    if offset_from(i, a) == k {
        vstd::arithmetic::div_mod::lemma_fundamental_div_mod_converse(
            i + k,
            m,
            -((a - i) / m),
            a,
        );
    }
    if a == mem_addr(i, k) {
        vstd::arithmetic::div_mod::lemma_fundamental_div_mod_converse(
            a - i,
            m,
            -((i + k) / m),
            k,
        );
    }
}

/// Relies on `rand::random::<u8>`, which draws a byte from the thread-local generator;
/// nothing is promised of its value.
#[verifier::external_body]
fn random_byte() -> u8 {
    rand::random::<u8>()
}

/// A CHIP-8 machine: memory, registers, call stack, timers, keypad and screen.
#[derive(Debug)]
pub struct Chip8 {
    ram: [u8; MEMORY_SIZE],
    pc: u16,
    v: [u8; NUM_REGISTERS],
    i: u16,
    call_stack: Vec<u16>,
    /// The delay/sound timers.
    pub timers: Timers,
    /// If a hex key `k` is being pressed, `is_key_pressed[k]` is true.
    pub is_key_pressed: [bool; NUM_KEYS],
    pub screen: Screen,
    shift_quirks: bool,
    load_store_quirks: bool,
}

impl View for Chip8 {
    type V = Chip8View;

    closed spec fn view(&self) -> Chip8View {
        Chip8View {
            ram: self.ram@,
            pc: self.pc,
            v: self.v@,
            i: self.i,
            call_stack: self.call_stack@,
            delay_timer: self.timers.delay_timer,
            sound_timer: self.timers.sound_timer,
            keys: self.is_key_pressed@,
            pixels: self.screen@,
            shift_quirks: self.shift_quirks,
            load_store_quirks: self.load_store_quirks,
        }
    }
}

impl Chip8 {
    /// Every machine has the sizes of memory, registers, keypad and screen.
    pub proof fn lemma_view_wf(&self)
        ensures
            self@.wf(),
    {
        self.screen.lemma_len();
    }

    /// Loads a program. With `shift_quirks`, `8xy6` and `8xyE` shift `Vx` itself;
    /// without, they shift `Vy` into `Vx`. With `load_store_quirks`, `Fx55` and `Fx65`
    /// leave `I` as it is; without, they advance it by `x + 1`.
    ///
    /// Fails with `ProgramTooLarge` when the program does not fit `0x200..0x1000`.
    pub fn new(program: &[u8], shift_quirks: bool, load_store_quirks: bool) -> (r: Result<
        Chip8,
        Error,
    >)
        ensures
            program@.len() > MAX_PROGRAM_LEN <==> r is Err,
            r is Err ==> r == Err::<Chip8, Error>(Error::ProgramTooLarge { len: program@.len() as usize }),
            r matches Ok(c) ==> {
                &&& c@.ram == initial_memory(program@)
                &&& c@.pc == PROGRAM_START
                &&& c@.v == Seq::new(NUM_REGISTERS as nat, |k: int| 0u8)
                &&& c@.i == 0
                &&& c@.call_stack == Seq::<u16>::empty()
                &&& c@.delay_timer == 0
                &&& c@.sound_timer == 0
                &&& c@.keys == Seq::new(NUM_KEYS as nat, |k: int| false)
                &&& c@.pixels == all_black()
                &&& c@.shift_quirks == shift_quirks
                &&& c@.load_store_quirks == load_store_quirks
            },
    {
        if program.len() > MAX_PROGRAM_LEN {
            return Err(Error::ProgramTooLarge { len: program.len() });
        }
        let c = Chip8 {
            ram: initial_ram(program),
            pc: PROGRAM_START as u16,
            v: [0u8; NUM_REGISTERS],
            i: 0,
            call_stack: Vec::new(),
            timers: Timers { delay_timer: 0, sound_timer: 0 },
            is_key_pressed: [false; NUM_KEYS],
            screen: Screen::new(),
            shift_quirks,
            load_store_quirks,
        };
        assert(c@.v =~= Seq::new(NUM_REGISTERS as nat, |k: int| 0u8));
        assert(c@.keys =~= Seq::new(NUM_KEYS as nat, |k: int| false));
        Ok(c)
    }

    /// Reads the instruction word at the program counter and moves the counter past it.
    fn fetch_instruction(&mut self) -> (r: Result<u16, Error>)
        ensures
            r == fetch(old(self)@),
            r is Ok ==> final(self)@ == old(self)@.with_pc(old(self)@.pc + 2),
            r is Err ==> final(self)@ == old(self)@,
    {
        let pc = self.pc as usize;
        if pc >= MEMORY_SIZE {
            return Err(Error::InvalidProgramCounter { pc });
        }
        if pc + 1 >= MEMORY_SIZE {
            return Err(Error::InvalidProgramCounter { pc: pc + 1 });
        }
        let instruction = self.ram[pc] as u16 * 256 + self.ram[pc + 1] as u16;
        self.pc = self.pc + 2;
        Ok(instruction)
    }

    /// Runs one instruction of family `0`.
    fn execute_system(&mut self, instruction: u16) -> (r: Result<(), Error>)
        requires
            family(instruction) == 0x0,
            2 <= old(self)@.pc,
        ensures
            match execute_system(old(self)@, instruction) {
                Ok(t) => r == Ok::<(), Error>(()) && final(self)@ == t,
                Err(e) => r == Err::<(), Error>(e) && final(self)@ == old(self)@,
            },
    {
        let nnn = instruction % 0x1000;
        if nnn == 0x0E0 {
            self.screen.clear();
            Ok(())
        } else if nnn == 0x0EE {
            match self.call_stack.pop() {
                Some(return_address) => {
                    self.pc = return_address;
                    Ok(())
                },
                None => Err(Error::CallStackUnderflow { address: (self.pc - 2) as usize }),
            }
        } else {
            Err(Error::UnsupportedInstruction { instruction, address: (self.pc - 2) as usize })
        }
    }

    /// Runs one instruction of family `8`.
    fn execute_alu(&mut self, instruction: u16) -> (r: Result<(), Error>)
        requires
            family(instruction) == 0x8,
            2 <= old(self)@.pc,
        ensures
            match execute_alu(old(self)@, instruction) {
                Ok(t) => r == Ok::<(), Error>(()) && final(self)@ == t,
                Err(e) => r == Err::<(), Error>(e) && final(self)@ == old(self)@,
            },
    {
        let x = ((instruction / 0x100) % 0x10) as usize;
        let y = ((instruction / 0x10) % 0x10) as usize;
        let vx = self.v[x];
        let vy = self.v[y];
        let n = instruction % 0x10;
        if n == 0x0 {
            self.v[x] = vy;
        } else if n == 0x1 {
            self.v[x] = vx | vy;
        } else if n == 0x2 {
            self.v[x] = vx & vy;
        } else if n == 0x3 {
            self.v[x] = vx ^ vy;
        } else if n == 0x4 {
            let sum = vx as u16 + vy as u16;
            self.v[x] = (sum % 256) as u8;
            self.v[FLAG] = if sum > 255 { 1 } else { 0 };
        } else if n == 0x5 {
            self.v[x] = vx.wrapping_sub(vy);
            self.v[FLAG] = if vx >= vy { 1 } else { 0 };
        } else if n == 0x6 {
            let src = if self.shift_quirks { x } else { y };
            self.v[FLAG] = self.v[src] & 1;
            self.v[x] = self.v[src] >> 1u8;
        } else if n == 0x7 {
            self.v[x] = vy.wrapping_sub(vx);
            self.v[FLAG] = if vy >= vx { 1 } else { 0 };
        } else if n == 0xE {
            let src = if self.shift_quirks { x } else { y };
            self.v[FLAG] = if self.v[src] & 0x80 != 0 { 1 } else { 0 };
            self.v[x] = self.v[src] << 1u8;
        } else {
            return Err(Error::NotWellFormedInstruction { instruction, pc: (self.pc - 2) as usize });
        }
        Ok(())
    }

    /// Runs one instruction of family `E`.
    fn execute_keys(&mut self, instruction: u16) -> (r: Result<(), Error>)
        requires
            family(instruction) == 0xE,
            2 <= old(self)@.pc <= MEMORY_SIZE,
        ensures
            match execute_keys(old(self)@, instruction) {
                Ok(t) => r == Ok::<(), Error>(()) && final(self)@ == t,
                Err(e) => r == Err::<(), Error>(e) && final(self)@ == old(self)@,
            },
    {
        let x = ((instruction / 0x100) % 0x10) as usize;
        let pressed = self.is_key_pressed[(self.v[x] % 16) as usize];
        let kk = instruction % 0x100;
        if kk == 0x9E {
            if pressed {
                self.pc = self.pc + 2;
            }
            Ok(())
        } else if kk == 0xA1 {
            if !pressed {
                self.pc = self.pc + 2;
            }
            Ok(())
        } else {
            Err(Error::NotWellFormedInstruction { instruction, pc: (self.pc - 2) as usize })
        }
    }

    /// Runs `Dxyn`.
    fn execute_draw(&mut self, instruction: u16)
        requires
            family(instruction) == 0xD,
        ensures
            final(self)@ == execute_draw(old(self)@, instruction),
    {
        let ghost s = self@;
        proof {
            self.screen.lemma_len();
        }
        let x0 = (self.v[((instruction / 0x100) % 0x10) as usize] as usize) % SCREEN_WIDTH;
        let y0 = (self.v[((instruction / 0x10) % 0x10) as usize] as usize) % SCREEN_HEIGHT;
        let n = (instruction % 0x10) as usize;
        let ghost (gx, gy, gn) = (x0 as int, y0 as int, n as int);
        let rows = if n < SCREEN_HEIGHT - y0 { n } else { SCREEN_HEIGHT - y0 };
        let cols = if 8 < SCREEN_WIDTH - x0 { 8 } else { SCREEN_WIDTH - x0 };
        let mut collision = false;
        let mut row: usize = 0;
        assert(self.screen@ =~= partial_draw(s, gx, gy, gn, 0, 0));
        while row < rows
            invariant
                row <= rows,
                rows == if gn < SCREEN_HEIGHT - gy { gn } else { SCREEN_HEIGHT - gy },
                cols == if 8 < SCREEN_WIDTH - gx { 8 } else { SCREEN_WIDTH - gx },
                x0 == gx < SCREEN_WIDTH,
                y0 == gy < SCREEN_HEIGHT,
                self@ == (Chip8View { pixels: self@.pixels, ..s }),
                self.screen@ == partial_draw(s, gx, gy, gn, row as int, 0),
                collision == partial_collides(s, gx, gy, gn, row as int, 0),
            decreases rows - row,
        {
            let bits = self.ram[(self.i as usize + row) % MEMORY_SIZE];
            assert(bits == sprite_byte(s, row as int));
            let mut col: usize = 0;
            while col < cols
                invariant
                    row < rows,
                    col <= cols,
                    rows == if gn < SCREEN_HEIGHT - gy { gn } else { SCREEN_HEIGHT - gy },
                    cols == if 8 < SCREEN_WIDTH - gx { 8 } else { SCREEN_WIDTH - gx },
                    x0 == gx < SCREEN_WIDTH,
                    y0 == gy < SCREEN_HEIGHT,
                    bits == sprite_byte(s, row as int),
                    self@ == (Chip8View { pixels: self@.pixels, ..s }),
                    self.screen@ == partial_draw(s, gx, gy, gn, row as int, col as int),
                    collision == partial_collides(s, gx, gy, gn, row as int, col as int),
                decreases cols - col,
            {
                let ghost k0 = pixel_index((x0 + col) as int, (y0 + row) as int);
                proof {
                    lemma_pixel_coordinates((x0 + col) as int, (y0 + row) as int);
                }
                let ghost before_screen = self.screen@;
                if bits & (0x80u8 >> (col as u8)) != 0 {
                    assert(drawn(s, gx, gy, gn, k0));
                    let was_on = self.screen.toggle(x0 + col, y0 + row);
                    if was_on {
                        collision = true;
                    }
                    assert(partial_collides(s, gx, gy, gn, row as int, col as int + 1) == collision) by {
                        if was_on {
                            assert(before(k0, gx, gy, row as int, col as int + 1));
                        }
                        if partial_collides(s, gx, gy, gn, row as int, col as int + 1) {
                            let k = choose|k: int|
                                0 <= k < SCREEN_SIZE && drawn(s, gx, gy, gn, k) && before(
                                    k,
                                    gx,
                                    gy,
                                    row as int,
                                    col as int + 1,
                                ) && s.pixels[k] == Color::White;
                            if k != k0 {
                                assert(before(k, gx, gy, row as int, col as int));
                            }
                        }
                    }
                } else {
                    assert(!drawn(s, gx, gy, gn, k0));
                    assert(partial_collides(s, gx, gy, gn, row as int, col as int + 1) == collision) by {
                        if partial_collides(s, gx, gy, gn, row as int, col as int + 1) {
                            let k = choose|k: int|
                                0 <= k < SCREEN_SIZE && drawn(s, gx, gy, gn, k) && before(
                                    k,
                                    gx,
                                    gy,
                                    row as int,
                                    col as int + 1,
                                ) && s.pixels[k] == Color::White;
                            assert(before(k, gx, gy, row as int, col as int));
                        }
                    }
                }
                assert(self.screen@ =~= partial_draw(s, gx, gy, gn, row as int, col as int + 1));
                col = col + 1;
            }
            assert(self.screen@ =~= partial_draw(s, gx, gy, gn, row as int + 1, 0));
            assert(partial_collides(s, gx, gy, gn, row as int, col as int) == partial_collides(
                s,
                gx,
                gy,
                gn,
                row as int + 1,
                0,
            ));
            row = row + 1;
        }
        assert(self.screen@ =~= draw_pixels(s, gx, gy, gn));
        assert(partial_collides(s, gx, gy, gn, row as int, 0) == collides(s, gx, gy, gn));
        self.v[FLAG] = if collision { 1 } else { 0 };
    }

    /// Runs `Fx0A`: loads the lowest pressed key into `Vx`, or, with no key pressed, moves
    /// the program counter back so that the instruction runs again.
    fn wait_for_key(&mut self, x: usize)
        requires
            x < NUM_REGISTERS,
            2 <= old(self)@.pc,
        ensures
            final(self)@ == if any_pressed(old(self)@.keys) {
                old(self)@.with_v(x as int, lowest_pressed(old(self)@.keys) as u8)
            } else {
                old(self)@.with_pc(old(self)@.pc - 2)
            },
    {
        let ghost s = self@;
        let mut k: usize = 0;
        while k < NUM_KEYS
            invariant
                k <= NUM_KEYS,
                x < NUM_REGISTERS,
                self@ == s,
                s == old(self)@,
                forall|j: int| 0 <= j < k ==> !s.keys[j],
            decreases NUM_KEYS - k,
        {
            if self.is_key_pressed[k] {
                assert(first_pressed(s.keys, k as int));
                assert(any_pressed(s.keys));
                let ghost c = lowest_pressed(s.keys);
                assert(c == k) by {
                    if c < k {
                        assert(!s.keys[c]);
                    }
                    if c > k {
                        assert(!s.keys[k as int]);
                    }
                }
                self.v[x] = k as u8;
                return;
            }
            k = k + 1;
        }
        self.pc = self.pc - 2;
    }

    /// Runs `Fx55`: stores `V0..=Vx` at `I..=I + x`.
    fn store_registers(&mut self, x: usize)
        requires
            x < NUM_REGISTERS,
        ensures
            final(self)@ == (Chip8View { ram: stored_ram(old(self)@, x as int), ..old(self)@ }),
    {
        let ghost s = self@;
        let mut k: usize = 0;
        while k <= x
            invariant
                k <= x + 1,
                x < NUM_REGISTERS,
                self@ == (Chip8View { ram: self@.ram, ..s }),
                self@.ram.len() == MEMORY_SIZE,
                forall|a: int|
                    0 <= a < MEMORY_SIZE ==> #[trigger] self@.ram[a] == if offset_from(s.i, a) < k {
                        s.v[offset_from(s.i, a)]
                    } else {
                        s.ram[a]
                    },
            decreases x + 1 - k,
        {
            let a0 = (self.i as usize + k) % MEMORY_SIZE;
            assert forall|a: int| 0 <= a < MEMORY_SIZE implies (offset_from(s.i, a) == k) <==> (a
                == a0) by {
                lemma_offset(s.i, k as int, a);
            }
            self.ram[a0] = self.v[k];
            k = k + 1;
        }
        assert(self@.ram =~= stored_ram(s, x as int));
    }

    /// Runs `Fx65`: loads `V0..=Vx` from `I..=I + x`.
    fn load_registers(&mut self, x: usize)
        requires
            x < NUM_REGISTERS,
        ensures
            final(self)@ == (Chip8View { v: loaded_v(old(self)@, x as int), ..old(self)@ }),
    {
        let ghost s = self@;
        let mut k: usize = 0;
        while k <= x
            invariant
                k <= x + 1,
                x < NUM_REGISTERS,
                self@ == (Chip8View { v: self@.v, ..s }),
                self@.v.len() == NUM_REGISTERS,
                forall|j: int|
                    0 <= j < NUM_REGISTERS ==> #[trigger] self@.v[j] == if j < k {
                        s.ram[mem_addr(s.i, j)]
                    } else {
                        s.v[j]
                    },
            decreases x + 1 - k,
        {
            self.v[k] = self.ram[(self.i as usize + k) % MEMORY_SIZE];
            k = k + 1;
        }
        assert(self@.v =~= loaded_v(s, x as int));
    }

    /// Runs one instruction of family `F`.
    fn execute_misc(&mut self, instruction: u16) -> (r: Result<(), Error>)
        requires
            family(instruction) == 0xF,
            2 <= old(self)@.pc,
        ensures
            match execute_misc(old(self)@, instruction) {
                Ok(t) => r == Ok::<(), Error>(()) && final(self)@ == t,
                Err(e) => r == Err::<(), Error>(e) && final(self)@ == old(self)@,
            },
    {
        let x = ((instruction / 0x100) % 0x10) as usize;
        let vx = self.v[x];
        let kk = instruction % 0x100;
        if kk == 0x07 {
            self.v[x] = self.timers.delay_timer;
        } else if kk == 0x0A {
            self.wait_for_key(x);
        } else if kk == 0x15 {
            self.timers.delay_timer = vx;
        } else if kk == 0x18 {
            self.timers.sound_timer = vx;
        } else if kk == 0x1E {
            self.i = self.i.wrapping_add(vx as u16);
        } else if kk == 0x29 {
            self.i = (vx % 16) as u16 * SIZE_OF_SPRITE_FOR_DIGIT;
        } else if kk == 0x33 {
            let i = self.i as usize;
            self.ram[i % MEMORY_SIZE] = vx / 100;
            self.ram[(i + 1) % MEMORY_SIZE] = vx / 10 % 10;
            self.ram[(i + 2) % MEMORY_SIZE] = vx % 10;
        } else if kk == 0x55 {
            self.store_registers(x);
            if !self.load_store_quirks {
                self.i = self.i.wrapping_add(x as u16 + 1);
            }
        } else if kk == 0x65 {
            self.load_registers(x);
            if !self.load_store_quirks {
                self.i = self.i.wrapping_add(x as u16 + 1);
            }
        } else {
            return Err(Error::NotWellFormedInstruction { instruction, pc: (self.pc - 2) as usize });
        }
        Ok(())
    }

    /// Runs one instruction, with the program counter already past it.
    #[verifier::rlimit(40)]
    fn execute_instruction(&mut self, instruction: u16, random: u8) -> (r: Result<(), Error>)
        requires
            2 <= old(self)@.pc <= MEMORY_SIZE,
        ensures
            match execute(old(self)@, instruction, random) {
                Ok(t) => r == Ok::<(), Error>(()) && final(self)@ == t,
                Err(e) => r == Err::<(), Error>(e) && final(self)@ == old(self)@,
            },
    {
        let family = instruction / 0x1000;
        let x = ((instruction / 0x100) % 0x10) as usize;
        let y = ((instruction / 0x10) % 0x10) as usize;
        let kk = (instruction % 0x100) as u8;
        let nnn = instruction % 0x1000;
        let here = (self.pc - 2) as usize;
        if family == 0x0 {
            return self.execute_system(instruction);
        } else if family == 0x1 {
            self.pc = nnn;
        } else if family == 0x2 {
            self.call_stack.push(self.pc);
            self.pc = nnn;
        } else if family == 0x3 {
            if self.v[x] == kk {
                self.pc = self.pc + 2;
            }
        } else if family == 0x4 {
            if self.v[x] != kk {
                self.pc = self.pc + 2;
            }
        } else if family == 0x5 {
            if instruction % 0x10 != 0 {
                return Err(Error::NotWellFormedInstruction { instruction, pc: here });
            }
            if self.v[x] == self.v[y] {
                self.pc = self.pc + 2;
            }
        } else if family == 0x6 {
            self.v[x] = kk;
        } else if family == 0x7 {
            self.v[x] = self.v[x].wrapping_add(kk);
        } else if family == 0x8 {
            return self.execute_alu(instruction);
        } else if family == 0x9 {
            if instruction % 0x10 != 0 {
                return Err(Error::NotWellFormedInstruction { instruction, pc: here });
            }
            if self.v[x] != self.v[y] {
                self.pc = self.pc + 2;
            }
        } else if family == 0xA {
            self.i = nnn;
        } else if family == 0xB {
            self.pc = nnn + self.v[0] as u16;
        } else if family == 0xC {
            self.v[x] = random & kk;
        } else if family == 0xD {
            self.execute_draw(instruction);
        } else if family == 0xE {
            return self.execute_keys(instruction);
        } else {
            return self.execute_misc(instruction);
        }
        Ok(())
    }

    /// Fetches a 2-byte instruction at the program counter and executes it. `Cxkk` masks
    /// a byte drawn from the thread's random number generator.
    pub fn fetch_execute_cycle(&mut self) -> (r: Result<(), Error>)
        ensures
            exists|random: u8| (final(self)@, r) == cycle(old(self)@, random),
    {
        let random = random_byte();
        self.fetch_execute_cycle_with(random)
    }

    /// Fetches the instruction at the program counter and executes it; `random` is the
    /// byte that `Cxkk` masks.
    pub fn fetch_execute_cycle_with(&mut self, random: u8) -> (r: Result<(), Error>)
        ensures
            (final(self)@, r) == cycle(old(self)@, random),
    {
        match self.fetch_instruction() {
            Ok(instruction) => self.execute_instruction(instruction, random),
            Err(e) => Err(e),
        }
    }
    /// The program counter.
    pub fn pc(&self) -> (r: usize)
        ensures
            r == self@.pc,
    {
        self.pc as usize
    }

    /// The register `Vx`.
    pub fn register(&self, x: usize) -> (r: u8)
        requires
            x < NUM_REGISTERS,
        ensures
            r == self@.v[x as int],
    {
        self.v[x]
    }

    /// The index register `I`.
    pub fn index_register(&self) -> (r: u16)
        ensures
            r == self@.i,
    {
        self.i
    }

    /// The byte of memory at `address`.
    pub fn memory(&self, address: usize) -> (r: u8)
        requires
            address < MEMORY_SIZE,
        ensures
            r == self@.ram[address as int],
    {
        self.ram[address]
    }

    /// The number of return addresses on the call stack.
    pub fn call_depth(&self) -> (r: usize)
        ensures
            r == self@.call_stack.len(),
    {
        self.call_stack.len()
    }

    /// Whether `8xy6` and `8xyE` shift `Vx` itself.
    pub fn shift_quirks(&self) -> (r: bool)
        ensures
            r == self@.shift_quirks,
    {
        self.shift_quirks
    }

    /// Whether `Fx55` and `Fx65` leave `I` unchanged.
    pub fn load_store_quirks(&self) -> (r: bool)
        ensures
            r == self@.load_store_quirks,
    {
        self.load_store_quirks
    }
}

} // verus!
