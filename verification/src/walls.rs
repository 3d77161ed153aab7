//! The arena's walls, and the full-screen pictures of the start and end
//! screens.
use vstd::prelude::*;
use crate::screen::{
    cell_char, cell_draw, char_in_prefix, char_width, col_of, fits_screen, lands_at,
    lemma_cell_index, lemma_prefix_step, row_of, white_on_black, Color, ColorCode, Draw,
    BUFFER_HEIGHT, BUFFER_WIDTH,
};

verus! {

/// Which cells of the screen are walls.
pub struct Walls {
    pub walls: [[bool; BUFFER_WIDTH]; BUFFER_HEIGHT],
}

/// The character that shows a cell: `#` for a wall, a space otherwise.
pub open spec fn wall_glyph(wall: bool) -> char {
    if wall {
        '#'
    } else {
        ' '
    }
}

impl Walls {
    /// Drawing every cell of the screen, row by row: `#` on walls, spaces
    /// elsewhere, in white on black.
    pub open spec fn draws(&self) -> Seq<Draw> {
        Seq::new(
            (BUFFER_HEIGHT * BUFFER_WIDTH) as nat,
            |k: int|
                cell_draw(
                    wall_glyph(self.walls[k / (BUFFER_WIDTH as int)][k % (BUFFER_WIDTH as int)]),
                    k / (BUFFER_WIDTH as int),
                    k % (BUFFER_WIDTH as int),
                ),
        )
    }

    /// Reads the walls from a text map: a cell is a wall exactly when the
    /// map's character on it is `#`.
    pub fn new(map: &str) -> (w: Self)
        requires
            fits_screen(map@),
        ensures
            forall|r: int, c: int|
                0 <= r < BUFFER_HEIGHT && 0 <= c < BUFFER_WIDTH ==> #[trigger] w.walls[r][c] == (
                cell_char(map@, r, c) == Some('#')),
    {
        let ghost s = map@;
        let mut walls = [[false; BUFFER_WIDTH]; BUFFER_HEIGHT];
        let mut row: usize = 0;
        let mut col: usize = 0;
        for ch in it: map.chars()
            invariant
                it.seq() == s,
                fits_screen(s),
                row == if row_of(s, it.index() as int) < BUFFER_HEIGHT {
                    row_of(s, it.index() as int)
                } else {
                    BUFFER_HEIGHT as int
                },
                col == col_of(s, it.index() as int),
                col <= BUFFER_WIDTH + 3,
                forall|r: int, c: int|
                    0 <= r < BUFFER_HEIGHT && 0 <= c < BUFFER_WIDTH ==> #[trigger] walls[r][c] == (
                    char_in_prefix(s, it.index() as int, r, c) == Some('#')),
        {
            let ghost i = it.index() as int;
            assert(ch == s[i]);
            proof {
                assert forall|r: int, c: int|
                    0 <= r < BUFFER_HEIGHT && 0 <= c < BUFFER_WIDTH implies char_in_prefix(
                    s,
                    i + 1,
                    r,
                    c,
                ) == (if lands_at(s, i, r, c) {
                    Some(s[i])
                } else {
                    char_in_prefix(s, i, r, c)
                }) by {
                    lemma_prefix_step(s, i, r, c);
                }
            }
            if ch == '\n' {
                if row < BUFFER_HEIGHT {
                    row = row + 1;
                }
                col = 0;
            } else {
                walls[row][col] = ch == '#';
                col = col + char_width(ch);
            }
        }
        Walls { walls }
    }

    /// Draws every cell of the screen, row by row, in white on black.
    pub fn draw(&self) -> (ops: Vec<Draw>)
        ensures
            ops@ == self.draws(),
    {
        let mut ops: Vec<Draw> = Vec::new();
        for row in 0..BUFFER_HEIGHT
            invariant
                ops@.len() == row * BUFFER_WIDTH,
                forall|r: int, c: int|
                    0 <= r < row && 0 <= c < BUFFER_WIDTH ==> #[trigger] ops@[r * BUFFER_WIDTH
                        + c] == (Draw::Char {
                        ch: wall_glyph(self.walls[r][c]),
                        col: c as usize,
                        row: r as usize,
                        color: ColorCode { foreground: Color::White, background: Color::Black },
                    }),
        {
            for col in 0..BUFFER_WIDTH
                invariant
                    0 <= row < BUFFER_HEIGHT,
                    ops@.len() == row * BUFFER_WIDTH + col,
                    forall|r: int, c: int|
                        0 <= r < BUFFER_HEIGHT && 0 <= c < BUFFER_WIDTH && (r < row || (r == row
                            && c < col)) ==> #[trigger] ops@[r * BUFFER_WIDTH + c] == (Draw::Char {
                            ch: wall_glyph(self.walls[r][c]),
                            col: c as usize,
                            row: r as usize,
                            color: ColorCode {
                                foreground: Color::White,
                                background: Color::Black,
                            },
                        }),
            {
                ops.push(
                    Draw::Char {
                        ch: self.char_at(row, col),
                        col,
                        row,
                        color: ColorCode::new(Color::White, Color::Black),
                    },
                );
            }
        }
        assert forall|k: int| 0 <= k < BUFFER_HEIGHT * BUFFER_WIDTH implies ops@[k]
            == self.draws()[k] by {
            lemma_cell_index(k);
            let r = k / (BUFFER_WIDTH as int);
            let c = k % (BUFFER_WIDTH as int);
            assert(ops@[r * BUFFER_WIDTH + c] == cell_draw(wall_glyph(self.walls[r][c]), r, c));
        }
        assert(ops@ =~= self.draws());
        ops
    }

    /// Whether the cell on row `row`, column `col` is a wall.
    pub fn occupied(&self, row: usize, col: usize) -> (b: bool)
        requires
            row < BUFFER_HEIGHT,
            col < BUFFER_WIDTH,
        ensures
            b == self.walls[row as int][col as int],
    {
        self.walls[row][col]
    }

    fn char_at(&self, row: usize, col: usize) -> (c: char)
        requires
            row < BUFFER_HEIGHT,
            col < BUFFER_WIDTH,
        ensures
            c == wall_glyph(self.walls[row as int][col as int]),
    {
        if self.walls[row][col] {
            '#'
        } else {
            ' '
        }
    }
}

} // verus!

verus! {

/// What a map shows on a cell: its character there, or a space.
pub open spec fn screen_glyph(s: Seq<char>, r: int, c: int) -> char {
    match cell_char(s, r, c) {
        Some(ch) => ch,
        None => ' ',
    }
}

/// A full-screen picture with a score that can be shown on it.
pub struct GameOver {
    pub screen: [[char; BUFFER_WIDTH]; BUFFER_HEIGHT],
    pub points: usize,
    pub over: bool,
}

/// Column at which the score is written on the end screen.
pub const SCORE_COL: usize = 41;

/// Row on which the score is written on the end screen.
pub const SCORE_ROW: usize = 15;

impl GameOver {
    /// Drawing every cell of the picture, row by row, in white on black.
    pub open spec fn picture_draws(&self) -> Seq<Draw> {
        Seq::new(
            (BUFFER_HEIGHT * BUFFER_WIDTH) as nat,
            |k: int|
                cell_draw(
                    self.screen[k / (BUFFER_WIDTH as int)][k % (BUFFER_WIDTH as int)],
                    k / (BUFFER_WIDTH as int),
                    k % (BUFFER_WIDTH as int),
                ),
        )
    }

    /// Drawing the picture, then the score when it is shown.
    pub open spec fn draws(&self) -> Seq<Draw> {
        self.picture_draws() + if self.over {
            seq![
                Draw::Number {
                    num: self.points as isize,
                    col: SCORE_COL,
                    row: SCORE_ROW,
                    color: white_on_black(),
                },
            ]
        } else {
            Seq::empty()
        }
    }

    /// Reads the picture from a text map; the score starts at 0 and is shown.
    pub fn new(map: &str) -> (g: Self)
        requires
            fits_screen(map@),
        ensures
            g.points == 0,
            g.over,
            forall|r: int, c: int|
                0 <= r < BUFFER_HEIGHT && 0 <= c < BUFFER_WIDTH ==> #[trigger] g.screen[r][c]
                    == screen_glyph(map@, r, c),
    {
        let ghost s = map@;
        let mut screen = [[' '; BUFFER_WIDTH]; BUFFER_HEIGHT];
        let mut row: usize = 0;
        let mut col: usize = 0;
        for ch in it: map.chars()
            invariant
                it.seq() == s,
                fits_screen(s),
                row == if row_of(s, it.index() as int) < BUFFER_HEIGHT {
                    row_of(s, it.index() as int)
                } else {
                    BUFFER_HEIGHT as int
                },
                col == col_of(s, it.index() as int),
                col <= BUFFER_WIDTH + 3,
                forall|r: int, c: int|
                    0 <= r < BUFFER_HEIGHT && 0 <= c < BUFFER_WIDTH ==> #[trigger] screen[r][c]
                        == match char_in_prefix(s, it.index() as int, r, c) {
                        Some(ch) => ch,
                        None => ' ',
                    },
        {
            let ghost i = it.index() as int;
            assert(ch == s[i]);
            proof {
                assert forall|r: int, c: int|
                    0 <= r < BUFFER_HEIGHT && 0 <= c < BUFFER_WIDTH implies char_in_prefix(
                    s,
                    i + 1,
                    r,
                    c,
                ) == (if lands_at(s, i, r, c) {
                    Some(s[i])
                } else {
                    char_in_prefix(s, i, r, c)
                }) by {
                    lemma_prefix_step(s, i, r, c);
                }
            }
            if ch == '\n' {
                if row < BUFFER_HEIGHT {
                    row = row + 1;
                }
                col = 0;
            } else {
                screen[row][col] = ch;
                col = col + char_width(ch);
            }
        }
        GameOver { screen, points: 0, over: true }
    }

    /// Draws every cell of the picture, row by row, in white on black; then,
    /// when the score is shown, the score.
    pub fn draw(&self) -> (ops: Vec<Draw>)
        requires
            self.over ==> self.points <= isize::MAX,
        ensures
            ops@ == self.draws(),
    {
        let mut ops: Vec<Draw> = Vec::new();
        for row in 0..BUFFER_HEIGHT
            invariant
                ops@.len() == row * BUFFER_WIDTH,
                forall|r: int, c: int|
                    0 <= r < row && 0 <= c < BUFFER_WIDTH ==> #[trigger] ops@[r * BUFFER_WIDTH
                        + c] == (Draw::Char {
                        ch: self.screen[r][c],
                        col: c as usize,
                        row: r as usize,
                        color: ColorCode { foreground: Color::White, background: Color::Black },
                    }),
        {
            for col in 0..BUFFER_WIDTH
                invariant
                    0 <= row < BUFFER_HEIGHT,
                    ops@.len() == row * BUFFER_WIDTH + col,
                    forall|r: int, c: int|
                        0 <= r < BUFFER_HEIGHT && 0 <= c < BUFFER_WIDTH && (r < row || (r == row
                            && c < col)) ==> #[trigger] ops@[r * BUFFER_WIDTH + c] == (Draw::Char {
                            ch: self.screen[r][c],
                            col: c as usize,
                            row: r as usize,
                            color: ColorCode {
                                foreground: Color::White,
                                background: Color::Black,
                            },
                        }),
            {
                let ch = self.glyph_at(row, col);
                ops.push(
                    Draw::Char {
                        ch,
                        col,
                        row,
                        color: ColorCode::new(Color::White, Color::Black),
                    },
                );
            }
        }
        assert forall|k: int| 0 <= k < BUFFER_HEIGHT * BUFFER_WIDTH implies ops@[k]
            == self.picture_draws()[k] by {
            lemma_cell_index(k);
            let r = k / (BUFFER_WIDTH as int);
            let c = k % (BUFFER_WIDTH as int);
            assert(ops@[r * BUFFER_WIDTH + c] == cell_draw(self.screen[r][c], r, c));
        }
        assert(ops@ =~= self.picture_draws());
        if self.over {
            ops.push(
                Draw::Number {
                    num: self.points as isize,
                    col: SCORE_COL,
                    row: SCORE_ROW,
                    color: ColorCode::new(Color::White, Color::Black),
                },
            );
        }
        assert(ops@ =~= self.draws());
        ops
    }

    /// The character of the picture on row `row`, column `col`.
    fn glyph_at(&self, row: usize, col: usize) -> (c: char)
        requires
            row < BUFFER_HEIGHT,
            col < BUFFER_WIDTH,
        ensures
            c == self.screen[row as int][col as int],
    {
        self.screen[row][col]
    }
}

} // verus!
