//! The three text maps of the game: the arena's walls, the end screen and the
//! start screen, with the proof that each of them fits on the screen.
use vstd::prelude::*;
use crate::screen::{
    cell_char, col_of, fits_screen, lands_at, lemma_lands_unique, row_of, utf8_len, BUFFER_HEIGHT,
    BUFFER_WIDTH,
};

verus! {

/// The arena: three empty rows, then a box of walls.
pub const WALLS: &'static str = "


################################################################################
#                                                                              #
#                                                                              #
#                                                                              #
#                                                                              #
#                                                                              #
#                                                                              #
#                                                                              #
#                                                                              #
#                                                                              #
#                                                                              #
#                                                                              #
#                                                                              #
#                                                                              #
#                                                                              #
#                                                                              #
#                                                                              #
#                                                                              #
#                                                                              #
#                                                                              #
#                                                                              #
################################################################################";

/// The end screen.
pub const GAMEOVER: &'static str = "


################################################################################
#                                                                              #
#                                                                              #
#                                                                              #
#                                                                              #
#                                                                              #
#                                                                              #
#                                                                              #
#                                                                              #
#                                                                              #
#                                 DEREZZED                                     #
#                                                                              #
#                                 SCORE:                                       #
#                                                                              #
#                           PRESS 'R' TO RESTART                               #
#                                                                              #
#                                                                              #
#                                                                              #
#                                                                              #
#                                                                              #
#                                                                              #
################################################################################";

/// The start screen.
pub const START: &'static str = "################################################################################
#                                                                              #
#                                                                              #
#                                                                              #
#                                                                              #
#                                                                              #
#                                                                              #
#                                                                              #
#                                                                              #
#                                                                              #
#                                  TORN                                        #
#                                                                              #
#                                                                              #
#                            PRESS 'P' TO PLAY                                 #
#                                                                              #
#                                                                              #
#                                                                              #
#                                                                              #
#                                                                              #
#                                                                              #
#                                                                              #
#                                                                              #
#                                                                              #
#                                                                              #
################################################################################";

/// A map made of `blank` empty lines followed by `lines` lines of exactly
/// `BUFFER_WIDTH` one-byte characters.
pub open spec fn is_boxed_map(s: Seq<char>, blank: int, lines: int) -> bool {
    &&& 0 <= blank
    &&& 1 <= lines
    &&& blank + lines <= BUFFER_HEIGHT
    &&& s.len() == blank + lines * (BUFFER_WIDTH + 1) - 1
    &&& forall|i: int|
        0 <= i < s.len() ==> (#[trigger] s[i] == '\n' <==> (i < blank || (i - blank) % (
        BUFFER_WIDTH + 1) == BUFFER_WIDTH))
    &&& forall|i: int| 0 <= i < s.len() ==> utf8_len(#[trigger] s[i]) == 1
}

proof fn lemma_div_mod_step(k: int)
    requires
        k >= 0,
    ensures
        (k + 1) / 81 == k / 81 + if k % 81 == 80 { 1int } else { 0int },
        (k + 1) % 81 == if k % 81 == 80 { 0int } else { k % 81 + 1 },
{
    assert((k + 1) / 81 == k / 81 + if k % 81 == 80 { 1int } else { 0int }) by (nonlinear_arith)
        requires k >= 0;
    assert((k + 1) % 81 == if k % 81 == 80 { 0int } else { k % 81 + 1 }) by (nonlinear_arith)
        requires k >= 0;
}

/// Where each character of a boxed map lands.
pub proof fn lemma_boxed_map_position(s: Seq<char>, blank: int, lines: int, i: int)
    requires
        is_boxed_map(s, blank, lines),
        0 <= i <= s.len(),
    ensures
        row_of(s, i) == if i <= blank { i } else { blank + (i - blank) / 81 },
        col_of(s, i) == if i <= blank { 0 } else { (i - blank) % 81 },
    decreases i,
{
    if i > 0 {
        lemma_boxed_map_position(s, blank, lines, i - 1);
        let _ = s[i - 1];
        if i - 1 >= blank {
            lemma_div_mod_step(i - 1 - blank);
        }
    }
}

/// A boxed map fits on the screen.
pub proof fn lemma_boxed_map_fits(s: Seq<char>, blank: int, lines: int)
    requires
        is_boxed_map(s, blank, lines),
    ensures
        fits_screen(s),
{
    assert forall|i: int| 0 <= i < s.len() && s[i] != '\n' implies row_of(s, i) < BUFFER_HEIGHT
        && col_of(s, i) < BUFFER_WIDTH by {
        lemma_boxed_map_position(s, blank, lines, i);
        assert((i - blank) / 81 <= lines - 1) by (nonlinear_arith)
            requires i - blank <= lines * 81 - 2, i - blank >= 0, lines >= 1;
    }
}

/// The arena's map: three empty lines, then 22 full lines.
#[verifier::rlimit(100)]
pub proof fn lemma_walls_map()
    ensures
        is_boxed_map(WALLS@, 3, 22),
        fits_screen(WALLS@),
{
    reveal_strlit("


################################################################################
#                                                                              #
#                                                                              #
#                                                                              #
#                                                                              #
#                                                                              #
#                                                                              #
#                                                                              #
#                                                                              #
#                                                                              #
#                                                                              #
#                                                                              #
#                                                                              #
#                                                                              #
#                                                                              #
#                                                                              #
#                                                                              #
#                                                                              #
#                                                                              #
#                                                                              #
#                                                                              #
################################################################################");
    assert(WALLS@.len() == 3 + 22 * 81 - 1);
    assert(forall|i: int| 0 <= i < WALLS@.len() ==> utf8_len(#[trigger] WALLS@[i]) == 1);
    assert(forall|i: int|
        0 <= i < WALLS@.len() ==> (#[trigger] WALLS@[i] == '\n' <==> (i < 3 || (i - 3) % (
        BUFFER_WIDTH + 1) == BUFFER_WIDTH)));
    lemma_boxed_map_fits(WALLS@, 3, 22);
}

/// The end screen's map: three empty lines, then 22 full lines.
#[verifier::rlimit(100)]
pub proof fn lemma_gameover_map()
    ensures
        is_boxed_map(GAMEOVER@, 3, 22),
        fits_screen(GAMEOVER@),
{
    reveal_strlit("


################################################################################
#                                                                              #
#                                                                              #
#                                                                              #
#                                                                              #
#                                                                              #
#                                                                              #
#                                                                              #
#                                                                              #
#                                                                              #
#                                 DEREZZED                                     #
#                                                                              #
#                                 SCORE:                                       #
#                                                                              #
#                           PRESS 'R' TO RESTART                               #
#                                                                              #
#                                                                              #
#                                                                              #
#                                                                              #
#                                                                              #
#                                                                              #
################################################################################");
    assert(GAMEOVER@.len() == 3 + 22 * 81 - 1);
    assert(forall|i: int| 0 <= i < GAMEOVER@.len() ==> utf8_len(#[trigger] GAMEOVER@[i]) == 1);
    assert(forall|i: int|
        0 <= i < GAMEOVER@.len() ==> (#[trigger] GAMEOVER@[i] == '\n' <==> (i < 3 || (i - 3) % (
        BUFFER_WIDTH + 1) == BUFFER_WIDTH)));
    lemma_boxed_map_fits(GAMEOVER@, 3, 22);
}

/// The start screen's map: 25 full lines.
#[verifier::rlimit(100)]
pub proof fn lemma_start_map()
    ensures
        is_boxed_map(START@, 0, 25),
        fits_screen(START@),
{
    reveal_strlit("################################################################################
#                                                                              #
#                                                                              #
#                                                                              #
#                                                                              #
#                                                                              #
#                                                                              #
#                                                                              #
#                                                                              #
#                                                                              #
#                                  TORN                                        #
#                                                                              #
#                                                                              #
#                            PRESS 'P' TO PLAY                                 #
#                                                                              #
#                                                                              #
#                                                                              #
#                                                                              #
#                                                                              #
#                                                                              #
#                                                                              #
#                                                                              #
#                                                                              #
#                                                                              #
################################################################################");
    assert(START@.len() == 0 + 25 * 81 - 1);
    assert(forall|i: int| 0 <= i < START@.len() ==> utf8_len(#[trigger] START@[i]) == 1);
    assert(forall|i: int|
        0 <= i < START@.len() ==> (#[trigger] START@[i] == '\n' <==> (i < 0 || (i - 0) % (
        BUFFER_WIDTH + 1) == BUFFER_WIDTH)));
    lemma_boxed_map_fits(START@, 0, 25);
}

/// On a boxed map, the character on row `r`, column `c` of the box is the
/// `c`-th character of the box's line `r - blank`.
pub proof fn lemma_boxed_map_cell(s: Seq<char>, blank: int, lines: int, r: int, c: int)
    requires
        is_boxed_map(s, blank, lines),
        blank <= r < blank + lines,
        0 <= c < BUFFER_WIDTH,
    ensures
        cell_char(s, r, c) == Some(s[blank + (r - blank) * 81 + c]),
{
    let i = blank + (r - blank) * 81 + c;
    assert(0 <= (r - blank) * 81 + c <= lines * 81 - 2) by (nonlinear_arith)
        requires 0 <= r - blank < lines, 0 <= c < 80;
    assert(((r - blank) * 81 + c) / 81 == r - blank && ((r - blank) * 81 + c) % 81 == c)
        by (nonlinear_arith)
        requires 0 <= r - blank, 0 <= c < 80;
    lemma_boxed_map_position(s, blank, lines, i);
    let _ = s[i];
    assert(lands_at(s, i, r, c));
    let n = s.len() as int;
    assert(exists|j: int| 0 <= j < n && lands_at(s, j, r, c));
    let j = choose|j: int| 0 <= j < n && lands_at(s, j, r, c);
    lemma_lands_unique(s, i, j, r, c);
}

/// The cell on row `r`, column `c` lies on the border of the arena's box:
/// its top row 3, its bottom row 24, its left column 0 or its right column 79.
pub open spec fn arena_border(r: int, c: int) -> bool {
    ||| (r == 3 || r == 24) && 0 <= c < BUFFER_WIDTH
    ||| 3 <= r <= 24 && (c == 0 || c == BUFFER_WIDTH - 1)
}

/// Every cell on the border of the arena's box holds a `#` in the arena's map.
#[verifier::rlimit(100)]
pub proof fn lemma_walls_border()
    ensures
        forall|r: int, c: int| arena_border(r, c) ==> #[trigger] cell_char(WALLS@, r, c) == Some('#'),
{
    lemma_walls_map();
    reveal_strlit("


################################################################################
#                                                                              #
#                                                                              #
#                                                                              #
#                                                                              #
#                                                                              #
#                                                                              #
#                                                                              #
#                                                                              #
#                                                                              #
#                                                                              #
#                                                                              #
#                                                                              #
#                                                                              #
#                                                                              #
#                                                                              #
#                                                                              #
#                                                                              #
#                                                                              #
#                                                                              #
#                                                                              #
################################################################################");
    assert(forall|i: int|
        3 <= i < WALLS@.len() && (i < 83 || i >= 3 + 21 * 81 || (i - 3) % 81 == 0 || (i - 3) % 81
            == 79) && #[trigger] WALLS@[i] != '\n' ==> WALLS@[i] == '#');
    assert forall|r: int, c: int| arena_border(r, c) implies #[trigger] cell_char(WALLS@, r, c)
        == Some('#') by {
        lemma_boxed_map_cell(WALLS@, 3, 22, r, c);
        let i = 3 + (r - 3) * 81 + c;
        assert((i - 3) % 81 == c && 0 <= i - 3 <= 21 * 81 + 79) by (nonlinear_arith)
            requires i == 3 + (r - 3) * 81 + c, 0 <= r - 3 <= 21, 0 <= c < 80;
        assert(r == 3 ==> i < 83);
        assert(r == 24 ==> i >= 3 + 21 * 81) by (nonlinear_arith)
            requires i == 3 + (r - 3) * 81 + c, 0 <= c;
        lemma_boxed_map_position(WALLS@, 3, 22, i);
    }
}

} // verus!
