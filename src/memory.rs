use vstd::prelude::*;

verus! {

/// The size of the memory in bytes (addresses `0x000..0x1000`).
pub const MEMORY_SIZE: usize = 0x1000;

/// The address at which a program is loaded and starts to run.
pub const PROGRAM_START: usize = 0x200;

/// The largest program that fits the program space `0x200..0x1000`.
pub const MAX_PROGRAM_LEN: usize = MEMORY_SIZE - PROGRAM_START;

/// The number of bytes in the sprite of one hexadecimal digit.
pub const SIZE_OF_SPRITE_FOR_DIGIT: u16 = 5;

/// The number of bytes taken by the sprites of the sixteen digits.
pub const SPRITES_LEN: usize = 80;

/// The sprites of the hexadecimal digits `0` to `F`, five rows each, most significant
/// bit leftmost.
pub const SPRITES_FOR_DIGITS: [u8; SPRITES_LEN] = [
    0xF0, 0x90, 0x90, 0x90, 0xF0, // 0
    0x20, 0x60, 0x20, 0x20, 0x70, // 1
    0xF0, 0x10, 0xF0, 0x80, 0xF0, // 2
    0xF0, 0x10, 0xF0, 0x10, 0xF0, // 3
    0x90, 0x90, 0xF0, 0x10, 0x10, // 4
    0xF0, 0x80, 0xF0, 0x10, 0xF0, // 5
    0xF0, 0x80, 0xF0, 0x90, 0xF0, // 6
    0xF0, 0x10, 0x20, 0x40, 0x40, // 7
    0xF0, 0x90, 0xF0, 0x90, 0xF0, // 8
    0xF0, 0x90, 0xF0, 0x10, 0xF0, // 9
    0xF0, 0x90, 0xF0, 0x90, 0x90, // A
    0xE0, 0x90, 0xE0, 0x90, 0xE0, // B
    0xF0, 0x80, 0x80, 0x80, 0xF0, // C
    0xE0, 0x90, 0x90, 0x90, 0xE0, // D
    0xF0, 0x80, 0xF0, 0x80, 0xF0, // E
    0xF0, 0x80, 0xF0, 0x80, 0x80, // F
];

/// The memory image of a freshly loaded program: the digit sprites at `0x000`, the
/// program at `0x200`, zero everywhere else.
pub open spec fn initial_memory(program: Seq<u8>) -> Seq<u8> {
    Seq::new(
        MEMORY_SIZE as nat,
        |a: int|
            if a < SPRITES_LEN {
                SPRITES_FOR_DIGITS@[a]
            } else if PROGRAM_START <= a < PROGRAM_START + program.len() {
                program[a - PROGRAM_START]
            } else {
                0
            },
    )
}

/// Writes the digit sprites to the start of an all-zero memory.
fn load_sprites_for_digits(ram: &mut [u8; MEMORY_SIZE])
    requires
        forall|a: int| 0 <= a < MEMORY_SIZE ==> old(ram)@[a] == 0,
    ensures
        forall|a: int|
            0 <= a < MEMORY_SIZE ==> #[trigger] final(ram)@[a] == if a < SPRITES_LEN {
                SPRITES_FOR_DIGITS@[a]
            } else {
                0
            },
{
    let mut a: usize = 0;
    while a < SPRITES_LEN
        invariant
            a <= SPRITES_LEN,
            forall|b: int|
                0 <= b < MEMORY_SIZE ==> #[trigger] ram@[b] == if b < a {
                    SPRITES_FOR_DIGITS@[b]
                } else {
                    0
                },
        decreases SPRITES_LEN - a,
    {
        ram[a] = SPRITES_FOR_DIGITS[a];
        a = a + 1;
    }
}

/// Copies a program into the program space of a memory that holds only the digit
/// sprites.
fn load_program(program: &[u8], ram: &mut [u8; MEMORY_SIZE])
    requires
        program@.len() <= MAX_PROGRAM_LEN,
        forall|a: int|
            0 <= a < MEMORY_SIZE ==> #[trigger] old(ram)@[a] == if a < SPRITES_LEN {
                SPRITES_FOR_DIGITS@[a]
            } else {
                0
            },
    ensures
        final(ram)@ == initial_memory(program@),
{
    let mut k: usize = 0;
    while k < program.len()
        invariant
            program@.len() <= MAX_PROGRAM_LEN,
            k <= program@.len(),
            forall|a: int|
                0 <= a < MEMORY_SIZE ==> #[trigger] ram@[a] == if a < SPRITES_LEN {
                    SPRITES_FOR_DIGITS@[a]
                } else if PROGRAM_START <= a < PROGRAM_START + k {
                    program@[a - PROGRAM_START]
                } else {
                    0
                },
        decreases program@.len() - k,
    {
        ram[PROGRAM_START + k] = program[k];
        k = k + 1;
    }
    assert(ram@ =~= initial_memory(program@));
}

/// Builds the memory image for `program`: the digit sprites, then the program at
/// `0x200`, zero elsewhere.
pub fn initial_ram(program: &[u8]) -> (ram: [u8; MEMORY_SIZE])
    requires
        program@.len() <= MAX_PROGRAM_LEN,
    ensures
        ram@ == initial_memory(program@),
{
    let mut ram = [0u8; MEMORY_SIZE];
    load_sprites_for_digits(&mut ram);
    load_program(program, &mut ram);
    ram
}

} // verus!
