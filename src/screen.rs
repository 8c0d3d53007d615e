use vstd::prelude::*;
use vstd::slice::slice_subrange;

verus! {

/// The width of a CHIP-8 screen.
pub const SCREEN_WIDTH: usize = 64;

/// The height of a CHIP-8 screen.
pub const SCREEN_HEIGHT: usize = 32;

/// The number of pixels on a CHIP-8 screen.
pub const SCREEN_SIZE: usize = SCREEN_WIDTH * SCREEN_HEIGHT;

/// The raw byte of a pixel that is off.
pub const BLACK_BYTE: u8 = 0x00;

/// The raw byte of a pixel that is on.
pub const WHITE_BYTE: u8 = 0xFF;

/// The state of one pixel: off (`Black`) or on (`White`).
#[derive(Clone, Copy, Debug, PartialEq, Eq, Structural)]
pub enum Color {
    Black,
    White,
}

/// Exclusive or of two pixels: on when exactly one of them is on.
pub open spec fn color_xor(a: Color, b: Color) -> Color {
    if (a == Color::White) != (b == Color::White) {
        Color::White
    } else {
        Color::Black
    }
}

/// Inclusive or of two pixels: on when either of them is on.
pub open spec fn color_or(a: Color, b: Color) -> Color {
    if a == Color::White || b == Color::White {
        Color::White
    } else {
        Color::Black
    }
}

/// The raw byte that stands for a pixel in a 1-byte-per-pixel image.
pub open spec fn color_byte(c: Color) -> u8 {
    match c {
        Color::Black => BLACK_BYTE,
        Color::White => WHITE_BYTE,
    }
}

impl Color {
    /// Returns `White` if exactly one of `self` and `other` is `White`, otherwise `Black`.
    pub fn xor(self, other: Color) -> (r: Color)
        ensures
            r == color_xor(self, other),
    {
        match (self, other) {
            (Color::Black, Color::Black) | (Color::White, Color::White) => Color::Black,
            (Color::Black, Color::White) | (Color::White, Color::Black) => Color::White,
        }
    }

    /// Returns `White` if either `self` or `other` is `White`, otherwise `Black`.
    pub fn or(self, other: Color) -> (r: Color)
        ensures
            r == color_or(self, other),
    {
        match (self, other) {
            (Color::Black, Color::Black) => Color::Black,
            _ => Color::White,
        }
    }

    /// The raw byte of this pixel: `0x00` for `Black`, `0xFF` for `White`.
    pub fn to_byte(self) -> (r: u8)
        ensures
            r == color_byte(self),
    {
        match self {
            Color::Black => BLACK_BYTE,
            Color::White => WHITE_BYTE,
        }
    }
}

/// The index of pixel `(x, y)` in the row-major pixel sequence.
pub open spec fn pixel_index(x: int, y: int) -> int {
    y * SCREEN_WIDTH + x
}

/// The length of a text line: one character per pixel, then a line break.
pub const TEXT_LINE_LEN: usize = SCREEN_WIDTH + 1;

/// The character at position `j` of the text picture of `pixels`: `O` for a pixel that
/// is on, `.` for one that is off, a line break after each row.
pub open spec fn text_char(pixels: Seq<Color>, j: int) -> char {
    let x = j % (TEXT_LINE_LEN as int);
    let y = j / (TEXT_LINE_LEN as int);
    if x == SCREEN_WIDTH {
        '\n'
    } else if pixels[pixel_index(x, y)] == Color::White {
        'O'
    } else {
        '.'
    }
}

/// The text picture of a screen, row by row.
pub open spec fn text_of(pixels: Seq<Color>) -> Seq<char> {
    Seq::new((SCREEN_HEIGHT * TEXT_LINE_LEN) as nat, |j: int| text_char(pixels, j))
}

/// Relies on `String::push`: appends one character.
#[verifier::external_body]
fn push_char(s: &mut String, c: char)
    ensures
        final(s)@ == old(s)@.push(c),
{
    s.push(c);
}

/// A monochrome screen of `SCREEN_WIDTH` x `SCREEN_HEIGHT` pixels, stored row by row.
#[derive(Clone, Copy, Debug)]
pub struct Screen {
    pub(crate) pixels: [Color; SCREEN_SIZE],
}

impl View for Screen {
    type V = Seq<Color>;

    /// The pixels, row by row.
    closed spec fn view(&self) -> Seq<Color> {
        self.pixels@
    }
}

/// A screen whose pixels are all `Black`.
pub open spec fn all_black() -> Seq<Color> {
    Seq::new(SCREEN_SIZE as nat, |k: int| Color::Black)
}

impl Screen {
    /// The number of pixels is fixed.
    pub proof fn lemma_len(&self)
        ensures
            self@.len() == SCREEN_SIZE,
    {
    }

    /// Creates a black screen.
    pub fn new() -> (r: Screen)
        ensures
            r@ == all_black(),
    {
        let r = Screen { pixels: [Color::Black; SCREEN_SIZE] };
        assert(r@ =~= all_black());
        r
    }

    /// Turns every pixel off.
    pub fn clear(&mut self)
        ensures
            final(self)@ == all_black(),
    {
        let mut k: usize = 0;
        while k < SCREEN_SIZE
            invariant
                k <= SCREEN_SIZE,
                self@.len() == SCREEN_SIZE,
                forall|j: int| 0 <= j < k ==> self@[j] == Color::Black,
            decreases SCREEN_SIZE - k,
        {
            self.pixels[k] = Color::Black;
            k = k + 1;
        }
        assert(self@ =~= all_black());
    }

    /// The pixel at column `x` of row `y`.
    pub fn pixel(&self, x: usize, y: usize) -> (r: Color)
        requires
            x < SCREEN_WIDTH,
            y < SCREEN_HEIGHT,
        ensures
            r == self@[pixel_index(x as int, y as int)],
    {
        self.pixels[y * SCREEN_WIDTH + x]
    }

    /// Sets the pixel at column `x` of row `y`.
    pub fn set_pixel(&mut self, x: usize, y: usize, c: Color)
        requires
            x < SCREEN_WIDTH,
            y < SCREEN_HEIGHT,
        ensures
            final(self)@ == old(self)@.update(pixel_index(x as int, y as int), c),
    {
        self.pixels[y * SCREEN_WIDTH + x] = c;
    }

    /// Toggles the pixel at column `x` of row `y` (XOR with `White`), and returns
    /// whether it was on before.
    pub fn toggle(&mut self, x: usize, y: usize) -> (was_on: bool)
        requires
            x < SCREEN_WIDTH,
            y < SCREEN_HEIGHT,
        ensures
            was_on == (old(self)@[pixel_index(x as int, y as int)] == Color::White),
            final(self)@ == old(self)@.update(
                pixel_index(x as int, y as int),
                color_xor(old(self)@[pixel_index(x as int, y as int)], Color::White),
            ),
    {
        let k = y * SCREEN_WIDTH + x;
        let old_color = self.pixels[k];
        self.pixels[k] = old_color.xor(Color::White);
        old_color == Color::White
    }

    /// The `y`-th row of pixels, as a contiguous slice.
    pub fn row(&self, y: usize) -> (r: &[Color])
        requires
            y < SCREEN_HEIGHT,
        ensures
            r@ == self@.subrange(pixel_index(0, y as int), pixel_index(0, y as int + 1)),
    {
        let start = y * SCREEN_WIDTH;
        slice_subrange(self.pixels.as_slice(), start, start + SCREEN_WIDTH)
    }

    /// The raw pixel data, row by row, one byte per pixel (`0x00` off, `0xFF` on).
    pub fn to_bytes(&self) -> (r: Vec<u8>)
        ensures
            r@.len() == SCREEN_SIZE,
            forall|k: int| 0 <= k < SCREEN_SIZE ==> r@[k] == color_byte(#[trigger] self@[k]),
    {
        let mut r: Vec<u8> = Vec::with_capacity(SCREEN_SIZE);
        let mut k: usize = 0;
        while k < SCREEN_SIZE
            invariant
                k <= SCREEN_SIZE,
                self@.len() == SCREEN_SIZE,
                r@.len() == k,
                forall|j: int| 0 <= j < k ==> r@[j] == color_byte(#[trigger] self@[j]),
            decreases SCREEN_SIZE - k,
        {
            r.push(self.pixels[k].to_byte());
            k = k + 1;
        }
        r
    }

    /// A text picture of the screen: one line per row, `O` for a pixel that is on, `.`
    /// for one that is off.
    pub fn to_text(&self) -> (r: String)
        ensures
            r@ == text_of(self@),
    {
        let mut r = String::new();
        let mut y: usize = 0;
        while y < SCREEN_HEIGHT
            invariant
                y <= SCREEN_HEIGHT,
                self@.len() == SCREEN_SIZE,
                r@.len() == y * TEXT_LINE_LEN,
                forall|j: int| 0 <= j < r@.len() ==> #[trigger] r@[j] == text_char(self@, j),
            decreases SCREEN_HEIGHT - y,
        {
            let mut x: usize = 0;
            while x <= SCREEN_WIDTH
                invariant
                    y < SCREEN_HEIGHT,
                    x <= SCREEN_WIDTH + 1,
                    self@.len() == SCREEN_SIZE,
                    r@.len() == y * TEXT_LINE_LEN + x,
                    forall|j: int| 0 <= j < r@.len() ==> #[trigger] r@[j] == text_char(self@, j),
                decreases SCREEN_WIDTH + 1 - x,
            {
                proof {
                    vstd::arithmetic::div_mod::lemma_fundamental_div_mod_converse(
                        y * TEXT_LINE_LEN + x,
                        TEXT_LINE_LEN as int,
                        y as int,
                        x as int,
                    );
                }
                let c = if x == SCREEN_WIDTH {
                    '\n'
                } else if self.pixels[y * SCREEN_WIDTH + x] == Color::White {
                    'O'
                } else {
                    '.'
                };
                push_char(&mut r, c);
                x = x + 1;
            }
            assert(y * TEXT_LINE_LEN + TEXT_LINE_LEN == (y + 1) * TEXT_LINE_LEN) by (nonlinear_arith);
            y = y + 1;
        }
        assert(r@ =~= text_of(self@));
        r
    }

    /// Merges `other` into `self` pixel by pixel: a pixel ends up on when it was on in
    /// either screen.
    pub fn merge(&mut self, other: &Screen)
        ensures
            final(self)@.len() == SCREEN_SIZE,
            forall|k: int|
                0 <= k < SCREEN_SIZE ==> #[trigger] final(self)@[k] == color_or(
                    old(self)@[k],
                    other@[k],
                ),
    {
        let mut k: usize = 0;
        while k < SCREEN_SIZE
            invariant
                k <= SCREEN_SIZE,
                self@.len() == SCREEN_SIZE,
                other@.len() == SCREEN_SIZE,
                forall|j: int| 0 <= j < k ==> #[trigger] self@[j] == color_or(old(self)@[j], other@[j]),
                forall|j: int| k <= j < SCREEN_SIZE ==> #[trigger] self@[j] == old(self)@[j],
            decreases SCREEN_SIZE - k,
        {
            self.pixels[k] = self.pixels[k].or(other.pixels[k]);
            k = k + 1;
        }
    }
}

impl Default for Screen {
    /// Creates a black screen.
    fn default() -> (r: Screen)
        ensures
            r@ == all_black(),
    {
        Screen::new()
    }
}

} // verus!
