//! The text screen: its size, colours, the drawing operations that the game
//! hands back, and how a text map is laid out on the screen.
use vstd::prelude::*;

verus! {

/// Number of columns of the text screen.
pub const BUFFER_WIDTH: usize = 80;

/// Number of rows of the text screen.
pub const BUFFER_HEIGHT: usize = 25;

/// The colours that the game draws with.
#[derive(Clone, Copy, Debug, PartialEq, Eq, Structural)]
pub enum Color {
    Black,
    LightBlue,
    LightRed,
    White,
}

/// A foreground and a background colour.
#[derive(Clone, Copy, Debug, PartialEq, Eq, Structural)]
pub struct ColorCode {
    pub foreground: Color,
    pub background: Color,
}

impl ColorCode {
    pub fn new(foreground: Color, background: Color) -> (code: ColorCode)
        ensures
            code == (ColorCode { foreground, background }),
    {
        ColorCode { foreground, background }
    }
}

/// One drawing operation on the screen.
#[derive(Clone, Copy, Debug, PartialEq, Eq, Structural)]
pub enum Draw {
    /// Put the character `ch` at column `col` of row `row`.
    Char { ch: char, col: usize, row: usize, color: ColorCode },
    /// Write the decimal digits of `num` starting at column `col` of row `row`.
    Number { num: isize, col: usize, row: usize, color: ColorCode },
}

/// Number of bytes that `c` takes in UTF-8.
pub open spec fn utf8_len(c: char) -> int {
    let v = c as u32;
    if v < 0x80 {
        1
    } else if v < 0x800 {
        2
    } else if v < 0x10000 {
        3
    } else {
        4
    }
}

/// Number of bytes that `c` takes in UTF-8.
pub fn char_width(c: char) -> (n: usize)
    ensures
        n == utf8_len(c),
        1 <= n <= 4,
{
    let v = c as u32;
    if v < 0x80 {
        1
    } else if v < 0x800 {
        2
    } else if v < 0x10000 {
        3
    } else {
        4
    }
}

/// The row on which the character at index `i` of the map `s` lands: the
/// number of line breaks before it.
pub open spec fn row_of(s: Seq<char>, i: int) -> int
    decreases i,
{
    if i <= 0 {
        0
    } else {
        row_of(s, i - 1) + if s[i - 1] == '\n' { 1int } else { 0int }
    }
}

/// The column on which the character at index `i` of the map `s` lands: the
/// number of UTF-8 bytes between the last line break before it and itself.
pub open spec fn col_of(s: Seq<char>, i: int) -> int
    decreases i,
{
    if i <= 0 {
        0
    } else if s[i - 1] == '\n' {
        0
    } else {
        col_of(s, i - 1) + utf8_len(s[i - 1])
    }
}

/// The character at index `i` of `s` is not a line break and lands on row
/// `r`, column `c`.
pub open spec fn lands_at(s: Seq<char>, i: int, r: int, c: int) -> bool {
    &&& 0 <= i < s.len()
    &&& s[i] != '\n'
    &&& row_of(s, i) == r
    &&& col_of(s, i) == c
}

/// Every character of the map lands on the screen.
pub open spec fn fits_screen(s: Seq<char>) -> bool {
    forall|i: int|
        0 <= i < s.len() && s[i] != '\n' ==> row_of(s, i) < BUFFER_HEIGHT && col_of(s, i)
            < BUFFER_WIDTH
}

/// The character of the first `n` characters of `s` that lands on row `r`,
/// column `c`, if any.
pub open spec fn char_in_prefix(s: Seq<char>, n: int, r: int, c: int) -> Option<char> {
    if exists|i: int| 0 <= i < n && lands_at(s, i, r, c) {
        Some(s[choose|i: int| 0 <= i < n && lands_at(s, i, r, c)])
    } else {
        None
    }
}

/// The character of the map `s` that lands on row `r`, column `c`, if any.
pub open spec fn cell_char(s: Seq<char>, r: int, c: int) -> Option<char> {
    char_in_prefix(s, s.len() as int, r, c)
}

/// Later characters land further along: on a later row, or on the same row
/// further right.
pub proof fn lemma_later_lands_further(s: Seq<char>, j: int, k: int)
    requires
        0 <= j < k <= s.len(),
        s[j] != '\n',
    ensures
        row_of(s, k) > row_of(s, j) || (row_of(s, k) == row_of(s, j) && col_of(s, k) >= col_of(
            s,
            j,
        ) + 1),
    decreases k - j,
{
    if k == j + 1 {
        assert(row_of(s, k) == row_of(s, j));
        assert(col_of(s, k) == col_of(s, j) + utf8_len(s[j]));
    } else {
        lemma_later_lands_further(s, j, k - 1);
    }
}

/// No two characters of a map land on the same cell.
pub proof fn lemma_lands_unique(s: Seq<char>, i: int, j: int, r: int, c: int)
    requires
        lands_at(s, i, r, c),
        lands_at(s, j, r, c),
    ensures
        i == j,
{
    if i < j {
        lemma_later_lands_further(s, i, j);
    } else if j < i {
        lemma_later_lands_further(s, j, i);
    }
}

/// Adding the character at index `n` to the prefix changes only the cell it
/// lands on.
pub proof fn lemma_prefix_step(s: Seq<char>, n: int, r: int, c: int)
    requires
        0 <= n < s.len(),
    ensures
        char_in_prefix(s, n + 1, r, c) == (if lands_at(s, n, r, c) {
            Some(s[n])
        } else {
            char_in_prefix(s, n, r, c)
        }),
{
    if lands_at(s, n, r, c) {
        assert forall|i: int| 0 <= i < n + 1 && lands_at(s, i, r, c) implies i == n by {
            lemma_lands_unique(s, i, n, r, c);
        }
        assert(exists|i: int| 0 <= i < n + 1 && lands_at(s, i, r, c));
        assert(!exists|i: int| 0 <= i < n && lands_at(s, i, r, c));
    } else {
        if exists|i: int| 0 <= i < n && lands_at(s, i, r, c) {
            let i0 = choose|i: int| 0 <= i < n && lands_at(s, i, r, c);
            assert(0 <= i0 < n + 1 && lands_at(s, i0, r, c));
            let i1 = choose|i: int| 0 <= i < n + 1 && lands_at(s, i, r, c);
            lemma_lands_unique(s, i0, i1, r, c);
        }
    }
}

/// White on black: the colour of the screen pictures.
pub open spec fn white_on_black() -> ColorCode {
    ColorCode { foreground: Color::White, background: Color::Black }
}

/// The drawing operations of an optional one.
pub open spec fn op_seq(op: Option<Draw>) -> Seq<Draw> {
    match op {
        Some(d) => seq![d],
        None => Seq::empty(),
    }
}

/// Drawing the cell on row `r`, column `c` of a picture with `ch`, in white
/// on black.
pub open spec fn cell_draw(ch: char, r: int, c: int) -> Draw {
    Draw::Char { ch, col: c as usize, row: r as usize, color: white_on_black() }
}

/// Drawing character `k` of `text`, whose first character goes on column
/// `col` of row `row`.
pub open spec fn text_char_draw(text: Seq<char>, col: int, row: int, color: ColorCode, k: int) -> Draw {
    Draw::Char { ch: text[k], col: (col + k) as usize, row: row as usize, color }
}

/// Drawing the characters of `text` from column `col` of row `row` rightwards.
pub open spec fn text_draws(text: Seq<char>, col: int, row: int, color: ColorCode) -> Seq<Draw> {
    Seq::new(text.len(), |k: int| text_char_draw(text, col, row, color, k))
}

/// Index `k` of a row-by-row walk over the screen is row `k / BUFFER_WIDTH`,
/// column `k % BUFFER_WIDTH`.
pub proof fn lemma_cell_index(k: int)
    requires
        0 <= k < BUFFER_HEIGHT * BUFFER_WIDTH,
    ensures
        0 <= k / (BUFFER_WIDTH as int) < BUFFER_HEIGHT,
        0 <= k % (BUFFER_WIDTH as int) < BUFFER_WIDTH,
        k == (k / (BUFFER_WIDTH as int)) * BUFFER_WIDTH + k % (BUFFER_WIDTH as int),
{
    assert(0 <= k / 80 < 25 && 0 <= k % 80 < 80 && k == (k / 80) * 80 + k % 80)
        by (nonlinear_arith)
        requires 0 <= k < 2000;
}

} // verus!
