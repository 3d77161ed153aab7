//! The rules of the game, stated cell by cell: for every state, where each
//! step puts the cycles, when the game ends, when the player scores, and what
//! the screens show. Each law speaks of the coordinates and fields directly.
use vstd::prelude::*;
use crate::game::{fresh_enemy, DecodedKey, Game, KeyCode};
use crate::light::{lights_draws, Light, LightPath, TrailView, TRAIL_LEN};
use crate::player::{Player, DOWN, LEFT, RIGHT, UP};
use crate::screen::{
    cell_char, col_of, lands_at, lemma_lands_unique, row_of, utf8_len, Color, ColorCode, Draw,
};
use crate::walls::{screen_glyph, GameOver, Walls};

verus! {

/// The player's move, when no restart is asked for: the cell ahead of the
/// cycle (one column right for RIGHT, left for LEFT, one row down for DOWN,
/// up for UP) is taken when it holds no wall and no light of either trail;
/// otherwise the game ends and the cycle stays where it is. Nothing else
/// changes.
pub proof fn law_player_move(g: Game, lp: TrailView, dp: TrailView)
    requires
        !g.game_fix,
        0 < g.player.x < usize::MAX,
        0 < g.player.y < usize::MAX,
    ensures
        ({
            let p = g.player;
            let nx: int = if p.direction == RIGHT {
                p.x + 1
            } else if p.direction == LEFT {
                p.x - 1
            } else {
                p.x as int
            };
            let ny: int = if p.direction == DOWN {
                p.y + 1
            } else if p.direction == UP {
                p.y - 1
            } else {
                p.y as int
            };
            let m = g.moved(lp, dp);
            let hit = g.walls.walls[ny][nx] || lp.covers(nx as usize, ny as usize) || dp.covers(
                nx as usize,
                ny as usize,
            );
            &&& m == (Game { player: m.player, end_set: m.end_set, ..g })
            &&& hit ==> m.end_set && m.player == p
            &&& !hit ==> m.end_set == g.end_set && m.player == (Player {
                x: nx as usize,
                y: ny as usize,
                ..p
            })
        }),
{
}

/// The player's move when a restart was asked for: the round restarts, with
/// the player's cycle at column 13, row 12 heading right, a fresh opponent at
/// column 66, row 12 heading left with 13 ticks to its first turn, the game
/// running on, and the score and the tick count at 0.
pub proof fn law_restart_move(g: Game, lp: TrailView, dp: TrailView)
    requires
        g.game_fix,
    ensures
        g.moved(lp, dp) == (Game {
            end_set: false,
            player: Player { x: 13, y: 12, direction: RIGHT, ..g.player },
            enemy: Player { x: 66, y: 12, direction: LEFT, controlled: 0, turn_check: 13 },
            game_fix: false,
            points: 0,
            tick: 0,
            ..g
        }),
{
}

/// An arrow key turns the player's cycle onto the neighbouring cell in the
/// arrow's direction (unless the arrow points back where the cycle comes
/// from, which leaves it as it is), and only when that cell holds no wall and
/// no light of either trail. Nothing but the player's cycle ever changes, and
/// when the cell is blocked nothing changes at all.
pub proof fn law_arrow_key(g: Game, code: KeyCode)
    requires
        0 < g.player.x < usize::MAX,
        0 < g.player.y < usize::MAX,
    ensures
        ({
            let p = g.player;
            let d = p.direction;
            let x = p.x as int;
            let y = p.y as int;
            let turned: (usize, int, int) = match code {
                KeyCode::ArrowDown => if d != UP {
                    (DOWN, x, y + 1)
                } else {
                    (d, x, y)
                },
                KeyCode::ArrowUp => if d != DOWN {
                    (UP, x, y - 1)
                } else {
                    (d, x, y)
                },
                KeyCode::ArrowLeft => if d != RIGHT {
                    (LEFT, x - 1, y)
                } else {
                    (d, x, y)
                },
                KeyCode::ArrowRight => if d != LEFT {
                    (RIGHT, x + 1, y)
                } else {
                    (d, x, y)
                },
                KeyCode::Other => (d, x, y),
            };
            let nx = turned.1;
            let ny = turned.2;
            let a = g.after_key(DecodedKey::RawKey(code));
            let free = !g.walls.walls[ny][nx] && !g.light_path@.covers(nx as usize, ny as usize)
                && !g.dark_path@.covers(nx as usize, ny as usize);
            &&& a == (Game { player: a.player, ..g })
            &&& free ==> a.player == (Player {
                direction: turned.0,
                x: nx as usize,
                y: ny as usize,
                ..p
            })
            &&& !free ==> a == g
        }),
{
}

/// The character keys: `e` ends the game, `p` starts it, `r` goes back to
/// the start screen with empty trails, the player's cycle at column 13,
/// row 12 heading right, a fresh opponent and a restart of the round asked
/// for; any other character changes nothing.
pub proof fn law_character_key(g: Game, c: char)
    ensures
        c == 'e' ==> g.after_key(DecodedKey::Unicode(c)) == (Game { end_set: true, ..g }),
        c == 'p' ==> g.after_key(DecodedKey::Unicode(c)) == (Game { game_start: true, ..g }),
        c != 'r' && c != 'e' && c != 'p' ==> g.after_key(DecodedKey::Unicode(c)) == g,
        c == 'r' ==> {
            let a = g.after_key(DecodedKey::Unicode(c));
            &&& !a.end_set && !a.game_start && a.game_fix
            &&& a.player == (Player { x: 13, y: 12, direction: RIGHT, ..g.player })
            &&& a.enemy == (Player {
                x: 66,
                y: 12,
                direction: LEFT,
                controlled: 0,
                turn_check: 13,
            })
            &&& a.light_path@.count == 0 && a.light_path@.last == 0
            &&& a.dark_path@.count == 0 && a.dark_path@.last == 0
            &&& a.points == g.points && a.tick == g.tick && a.walls == g.walls
        },
{
}

/// The opponent's move: it takes the cell ahead when that cell holds no wall
/// and no light; at a wall a horizontal cycle turns down one row (heading
/// down) and a vertical one turns left one column (heading left), so a cycle
/// turned at a wall never keeps its heading; on a light the player scores one
/// point and a fresh opponent starts at column 66, row 12. Nothing else
/// changes.
pub proof fn law_opponent_move(g: Game, lp: TrailView, dp: TrailView)
    requires
        0 < g.enemy.x < usize::MAX,
        0 < g.enemy.y < usize::MAX,
        g.points < usize::MAX,
    ensures
        ({
            let e = g.enemy;
            let nx: int = if e.direction == RIGHT {
                e.x + 1
            } else if e.direction == LEFT {
                e.x - 1
            } else {
                e.x as int
            };
            let ny: int = if e.direction == DOWN {
                e.y + 1
            } else if e.direction == UP {
                e.y - 1
            } else {
                e.y as int
            };
            let o = g.groved(lp, dp);
            let wall = g.walls.walls[ny][nx];
            let light = lp.covers(nx as usize, ny as usize) || dp.covers(nx as usize, ny as usize);
            &&& o == (Game { enemy: o.enemy, points: o.points, ..g })
            &&& !wall && !light ==> o.points == g.points && o.enemy == (Player {
                x: nx as usize,
                y: ny as usize,
                ..e
            })
            &&& wall && (e.direction == RIGHT || e.direction == LEFT) ==> o.points == g.points
                && o.enemy == (Player { direction: DOWN, y: (e.y + 1) as usize, ..e })
            &&& wall && (e.direction == DOWN || e.direction == UP) ==> o.points == g.points
                && o.enemy == (Player { direction: LEFT, x: (e.x - 1) as usize, ..e })
            &&& wall && e.direction <= UP ==> o.enemy.direction != e.direction
            &&& !wall && light ==> o.points == g.points + 1 && o.enemy == (Player {
                x: 66,
                y: 12,
                direction: LEFT,
                controlled: 0,
                turn_check: 13,
            })
        }),
{
}

/// The opponent's steering: a positive countdown goes down by one and
/// nothing else changes; a negative one changes nothing; at 0 the countdown
/// restarts at 4 and the cycle turns by the tick: a horizontal cycle (heading
/// right or left alike) turns up one row on ticks divisible by 3, else down
/// one row on even ticks; a vertical one turns left one column on ticks
/// divisible by 3, else right one column on even ticks; on other ticks it
/// keeps its heading and place.
pub proof fn law_opponent_steering(p: Player, tick: isize)
    requires
        0 < p.x < usize::MAX,
        0 < p.y < usize::MAX,
    ensures
        p.turn_check > 0 ==> p.after_stance(tick) == (Player {
            turn_check: (p.turn_check - 1) as isize,
            ..p
        }),
        p.turn_check < 0 ==> p.after_stance(tick) == p,
        p.turn_check == 0 && (p.direction == RIGHT || p.direction == LEFT) && tick % 3 == 0
            ==> p.after_stance(tick) == (Player {
            direction: UP,
            y: (p.y - 1) as usize,
            turn_check: 4,
            ..p
        }),
        p.turn_check == 0 && (p.direction == RIGHT || p.direction == LEFT) && tick % 3 != 0 && tick
            % 2 == 0 ==> p.after_stance(tick) == (Player {
            direction: DOWN,
            y: (p.y + 1) as usize,
            turn_check: 4,
            ..p
        }),
        p.turn_check == 0 && (p.direction == DOWN || p.direction == UP) && tick % 3 == 0
            ==> p.after_stance(tick) == (Player {
            direction: LEFT,
            x: (p.x - 1) as usize,
            turn_check: 4,
            ..p
        }),
        p.turn_check == 0 && (p.direction == DOWN || p.direction == UP) && tick % 3 != 0 && tick
            % 2 == 0 ==> p.after_stance(tick) == (Player {
            direction: RIGHT,
            x: (p.x + 1) as usize,
            turn_check: 4,
            ..p
        }),
        p.turn_check == 0 && !(tick % 3 == 0 || tick % 2 == 0) ==> p.after_stance(tick) == (Player {
            turn_check: 4,
            ..p
        }),
{
}

/// A full-screen picture is drawn as its 2000 cells, row by row, in white
/// on black; when the score is shown, exactly one more operation follows:
/// the score, whatever its value (0 included), at column 41 of row 15.
pub proof fn law_picture_draws(g: GameOver)
    ensures
        g.draws().len() == if g.over { 2001int } else { 2000int },
        forall|k: int|
            0 <= k < 2000 ==> #[trigger] g.draws()[k] == (Draw::Char {
                ch: g.screen[k / 80][k % 80],
                col: (k % 80) as usize,
                row: (k / 80) as usize,
                color: ColorCode { foreground: Color::White, background: Color::Black },
            }),
        g.over ==> g.draws()[2000] == (Draw::Number {
            num: g.points as isize,
            col: 41,
            row: 15,
            color: ColorCode { foreground: Color::White, background: Color::Black },
        }),
{
}

/// The title line is "TORN" from column 30 and "Score: " from column 45 of
/// row 1, then the score, whatever its value, at column 52: twelve
/// operations in light blue on black.
pub proof fn law_title_draws(points: usize)
    ensures
        crate::game::title_draws(points).len() == 12,
        crate::game::title_draws(points)[0] == (Draw::Char {
            ch: 'T',
            col: 30,
            row: 1,
            color: ColorCode { foreground: Color::LightBlue, background: Color::Black },
        }),
        crate::game::title_draws(points)[3] == (Draw::Char {
            ch: 'N',
            col: 33,
            row: 1,
            color: ColorCode { foreground: Color::LightBlue, background: Color::Black },
        }),
        crate::game::title_draws(points)[4] == (Draw::Char {
            ch: 'S',
            col: 45,
            row: 1,
            color: ColorCode { foreground: Color::LightBlue, background: Color::Black },
        }),
        crate::game::title_draws(points)[11] == (Draw::Number {
            num: points as isize,
            col: 52,
            row: 1,
            color: ColorCode { foreground: Color::LightBlue, background: Color::Black },
        }),
{
    reveal_strlit("TORN");
    reveal_strlit("Score: ");
}

/// Where the cycles start: the player's at column 13, row 12 heading right,
/// with controller 1; the opponent's at column 66, row 12 heading left, with
/// controller 0 and the given countdown.
pub proof fn law_starting_places(turn_check: isize)
    ensures
        Player::start() == (Player { x: 13, y: 12, direction: RIGHT, controlled: 1, turn_check: 0 }),
        fresh_enemy(turn_check) == (Player {
            x: 66,
            y: 12,
            direction: LEFT,
            controlled: 0,
            turn_check,
        }),
        forall|p: Player| #[trigger] p.was_reset() == (Player { x: 13, y: 12, direction: RIGHT, ..p }),
{
}

/// The turns of a cycle: each moves it one cell in the turn's direction and
/// sets its heading, except a turn towards where it comes from, which leaves
/// it as it is.
pub proof fn law_turns(p: Player)
    requires
        0 < p.x < usize::MAX,
        0 < p.y < usize::MAX,
    ensures
        p.turned_down() == if p.direction == UP {
            p
        } else {
            Player { direction: DOWN, y: (p.y + 1) as usize, ..p }
        },
        p.turned_up() == if p.direction == DOWN {
            p
        } else {
            Player { direction: UP, y: (p.y - 1) as usize, ..p }
        },
        p.turned_left() == if p.direction == RIGHT {
            p
        } else {
            Player { direction: LEFT, x: (p.x - 1) as usize, ..p }
        },
        p.turned_right() == if p.direction == LEFT {
            p
        } else {
            Player { direction: RIGHT, x: (p.x + 1) as usize, ..p }
        },
{
}

/// A cycle is shown at its own cell by `>`, `<`, `v` or `^` for the
/// headings right, left, down and up, in the given colour on black; a cycle
/// with any other heading is not shown.
pub proof fn law_heading_shown(p: Player, fg: Color)
    ensures
        ({
            let ch = if p.direction == RIGHT {
                '>'
            } else if p.direction == LEFT {
                '<'
            } else if p.direction == DOWN {
                'v'
            } else {
                '^'
            };
            &&& p.direction <= UP ==> p.heading_draw(fg) == Some(
                Draw::Char {
                    ch,
                    col: p.x,
                    row: p.y,
                    color: ColorCode { foreground: fg, background: Color::Black },
                },
            )
            &&& p.direction > UP ==> p.heading_draw(fg) is None
        }),
{
}

/// A fresh light sits at the corner, laid by a still cycle at the corner.
pub proof fn law_blank_light()
    ensures
        Light::blank() == (Light {
            x: 0,
            y: 0,
            axis: 0,
            user: Player { x: 0, y: 0, direction: 0, controlled: 0, turn_check: 0 },
        }),
{
}

/// Setting up a light puts it on its cycle's cell, on axis 1 for a cycle
/// heading down or up and on axis 0 for one heading right or left; any other
/// heading keeps the axis.
pub proof fn law_light_set_up(l: Light)
    ensures
        l.set_up().x == l.user.x,
        l.set_up().y == l.user.y,
        l.set_up().user == l.user,
        (l.user.direction == DOWN || l.user.direction == UP) ==> l.set_up().axis == 1,
        (l.user.direction == RIGHT || l.user.direction == LEFT) ==> l.set_up().axis == 0,
        l.user.direction > UP ==> l.set_up().axis == l.axis,
{
}

/// Drawing a light of one of the two cycles on a known axis moves it to the
/// cell behind its cycle (one column back on axis 0, one row back on axis 1,
/// in the direction the cycle comes from; a cycle whose heading does not run
/// along the axis leaves that coordinate), and shows it there as `-` on axis
/// 0 or `|` on axis 1, light blue for the player's cycle and light red for
/// the opponent's. Any other light is left as it is and not shown.
pub proof fn law_light_drawn(l: Light)
    requires
        0 < l.user.x < usize::MAX,
        0 < l.user.y < usize::MAX,
    ensures
        ({
            let u = l.user;
            let shown = (u.controlled == 0 || u.controlled == 1) && (l.axis == 0 || l.axis == 1);
            let x: usize = if l.axis == 1 {
                u.x
            } else if u.direction == RIGHT {
                (u.x - 1) as usize
            } else if u.direction == LEFT {
                (u.x + 1) as usize
            } else {
                l.x
            };
            let y: usize = if l.axis == 0 {
                u.y
            } else if u.direction == DOWN {
                (u.y - 1) as usize
            } else if u.direction == UP {
                (u.y + 1) as usize
            } else {
                l.y
            };
            let fg = if u.controlled == 1 {
                Color::LightBlue
            } else {
                Color::LightRed
            };
            &&& shown ==> l.placed() == (Light { x, y, ..l })
            &&& shown ==> l.draw_op() == Some(
                Draw::Char {
                    ch: if l.axis == 0 {
                        '-'
                    } else {
                        '|'
                    },
                    col: x,
                    row: y,
                    color: ColorCode { foreground: fg, background: Color::Black },
                },
            )
            &&& !shown ==> l.placed() == l && l.draw_op() is None
        }),
{
}

/// An empty trail holds 25 fresh lights and counts none.
pub proof fn law_empty_trail()
    ensures
        LightPath::empty()@.count == 0,
        LightPath::empty()@.last == 0,
        LightPath::empty()@.lights.len() == 25,
        forall|i: int| 0 <= i < 25 ==> #[trigger] LightPath::empty()@.lights[i] == Light::blank(),
        forall|x: usize, y: usize| !#[trigger] LightPath::empty()@.covers(x, y),
{
}

/// A trail shows a light on a cell exactly when one of its first `count`
/// lights is on it.
pub proof fn law_trail_covers(t: TrailView, x: usize, y: usize, i: int)
    ensures
        0 <= i < t.count && t.lights[i].x == x && t.lights[i].y == y ==> t.covers(x, y),
        t.covers(x, y) ==> exists|j: int|
            0 <= j < t.count && #[trigger] t.lights[j].x == x && t.lights[j].y == y,
        t.count == 0 ==> !t.covers(x, y),
{
}

/// Laying a light puts it into the slot after the last one laid (the first
/// slot after the last slot of the ring), records that slot as the last, and
/// counts one more light, up to 25; every other slot keeps its light.
pub proof fn law_trail_laid(t: TrailView, l: Light)
    requires
        t.lights.len() == TRAIL_LEN,
    ensures
        ({
            let slot: int = if t.last >= 25 {
                0
            } else {
                t.last as int
            };
            let n = t.laid(l);
            &&& n.lights.len() == 25
            &&& n.lights[slot] == l
            &&& forall|i: int| 0 <= i < 25 && i != slot ==> #[trigger] n.lights[i] == t.lights[i]
            &&& n.last == slot
            &&& n.count == if t.count < 25 {
                t.count + 1
            } else {
                t.count as int
            }
        }),
{
}

/// Drawing a trail moves each of its first `count` lights behind its cycle
/// and leaves the others, the count and the last slot; when every counted
/// light is shown, it draws exactly one operation per counted light, in slot
/// order.
pub proof fn law_trail_drawn(t: TrailView)
    ensures
        t.placed().lights.len() == t.lights.len(),
        t.placed().count == t.count,
        t.placed().last == t.last,
        forall|i: int|
            0 <= i < t.lights.len() ==> #[trigger] t.placed().lights[i] == if i < t.count {
                t.lights[i].placed()
            } else {
                t.lights[i]
            },
        t.count <= t.lights.len() && (forall|i: int|
            0 <= i < t.count ==> #[trigger] t.lights[i].draw_op() is Some) ==> {
            &&& t.draws().len() == t.count
            &&& forall|i: int|
                0 <= i < t.count ==> Some(#[trigger] t.draws()[i]) == t.lights[i].draw_op()
        },
{
    if t.count <= t.lights.len() && (forall|i: int|
        0 <= i < t.count ==> #[trigger] t.lights[i].draw_op() is Some) {
        lemma_all_shown_draws(t.lights, t.count as int);
    }
}

proof fn lemma_all_shown_draws(s: Seq<Light>, n: int)
    requires
        0 <= n <= s.len(),
        forall|i: int| 0 <= i < n ==> #[trigger] s[i].draw_op() is Some,
    ensures
        lights_draws(s, n).len() == n,
        forall|i: int| 0 <= i < n ==> Some(#[trigger] lights_draws(s, n)[i]) == s[i].draw_op(),
    decreases n,
{
    if n > 0 {
        lemma_all_shown_draws(s, n - 1);
        assert(s[n - 1].draw_op() is Some);
        assert forall|i: int| 0 <= i < n implies Some(#[trigger] lights_draws(s, n)[i])
            == s[i].draw_op() by {
            if i < n - 1 {
                assert(lights_draws(s, n)[i] == lights_draws(s, n - 1)[i]);
            }
        }
    }
}

/// The arena is drawn as its 2000 cells, row by row: `#` on walls and a
/// space elsewhere, in white on black.
pub proof fn law_walls_draws(w: Walls)
    ensures
        w.draws().len() == 2000,
        forall|k: int|
            0 <= k < 2000 ==> #[trigger] w.draws()[k] == (Draw::Char {
                ch: if w.walls[k / 80][k % 80] {
                    '#'
                } else {
                    ' '
                },
                col: (k % 80) as usize,
                row: (k / 80) as usize,
                color: ColorCode { foreground: Color::White, background: Color::Black },
            }),
{
}

/// Within a line of one-byte characters that starts at index `j` (the start
/// of the map or just after a line break), the character at index `i` lands
/// `i - j` columns from the left, on the same row as the line's start; a line
/// break moves on to the next row.
pub proof fn law_map_lines(s: Seq<char>, j: int, i: int)
    requires
        0 <= j <= i < s.len(),
        j == 0 || s[j - 1] == '\n',
        forall|m: int| j <= m < i ==> #[trigger] s[m] != '\n' && utf8_len(s[m]) == 1,
    ensures
        col_of(s, i) == i - j,
        row_of(s, i) == row_of(s, j),
        j == 0 ==> row_of(s, j) == 0,
        j > 0 ==> row_of(s, j) == row_of(s, j - 1) + 1,
    decreases i - j,
{
    if i > j {
        law_map_lines(s, j, i - 1);
    }
}

/// The character that a map puts on a cell is the one of its characters that
/// lands there, and a cell on which none lands has none; a wall stands
/// exactly where a `#` lands, and a picture shows the character that lands
/// on a cell, or a space.
pub proof fn law_map_cells(s: Seq<char>, i: int, r: int, c: int)
    ensures
        lands_at(s, i, r, c) ==> cell_char(s, r, c) == Some(s[i]),
        lands_at(s, i, r, c) ==> screen_glyph(s, r, c) == s[i],
        (forall|k: int| !#[trigger] lands_at(s, k, r, c)) ==> cell_char(s, r, c) is None
            && screen_glyph(s, r, c) == ' ',
        cell_char(s, r, c) is Some ==> exists|k: int|
            #[trigger] lands_at(s, k, r, c) && s[k] == cell_char(s, r, c)->0,
{
    if lands_at(s, i, r, c) {
        let n = s.len() as int;
        assert(0 <= i < n && lands_at(s, i, r, c));
        let k = choose|k: int| 0 <= k < n && lands_at(s, k, r, c);
        lemma_lands_unique(s, i, k, r, c);
    }
}

/// A tick of a running game with no restart asked for: the tick count goes
/// up by one; this tick's lights are set up on the two cycles' cells; the
/// player's cycle takes the cell ahead when it holds no wall and no light of
/// the two trails as they stand after this tick's lights are laid, and the
/// game ends otherwise; the opponent takes the cell ahead when it is free
/// (its countdown then goes on), and when it runs into a light the player
/// scores one point and a fresh opponent starts; the score goes up by at most
/// one; the walls, the two screens and the start flag stay; and the drawing
/// is the arena, the title line, the player's cycle, the opponent's cycle,
/// then the trails.
pub proof fn law_tick(g: Game)
    requires
        g.playing(),
        !g.game_fix,
        0 < g.player.x < usize::MAX,
        0 < g.player.y < usize::MAX,
        g.points < usize::MAX,
        g.tick < isize::MAX,
        0 < g.enemy.x < usize::MAX,
        0 < g.enemy.y < usize::MAX,
    ensures
        ({
            let p = g.player;
            let nx: int = if p.direction == RIGHT {
                p.x + 1
            } else if p.direction == LEFT {
                p.x - 1
            } else {
                p.x as int
            };
            let ny: int = if p.direction == DOWN {
                p.y + 1
            } else if p.direction == UP {
                p.y - 1
            } else {
                p.y as int
            };
            let hit = g.walls.walls[ny][nx] || g.next_light_path().covers(nx as usize, ny as usize)
                || g.next_dark_path().covers(nx as usize, ny as usize);
            let t = g.ticked();
            let e = g.enemy;
            let ex: int = if e.direction == RIGHT {
                e.x + 1
            } else if e.direction == LEFT {
                e.x - 1
            } else {
                e.x as int
            };
            let ey: int = if e.direction == DOWN {
                e.y + 1
            } else if e.direction == UP {
                e.y - 1
            } else {
                e.y as int
            };
            let ewall = g.walls.walls[ey][ex];
            let elight = g.next_light_path().covers(ex as usize, ey as usize)
                || g.next_dark_path().covers(ex as usize, ey as usize);
            &&& !ewall && !elight && e.turn_check > 0 ==> t.points == g.points && t.enemy == (
            Player { x: ex as usize, y: ey as usize, turn_check: (e.turn_check - 1) as isize, ..e })
            &&& !ewall && elight ==> t.points == g.points + 1 && t.enemy == (Player {
                x: 66,
                y: 12,
                direction: LEFT,
                controlled: 0,
                turn_check: 12,
            })
            &&& t.tick == g.tick + 1
            &&& t.light.user == g.player && t.light.x == g.player.x && t.light.y == g.player.y
            &&& t.dark.user == g.enemy && t.dark.x == g.enemy.x && t.dark.y == g.enemy.y
            &&& t.end_set == hit
            &&& hit ==> t.player == p
            &&& !hit ==> t.player == (Player { x: nx as usize, y: ny as usize, ..p })
            &&& t.points == g.points || t.points == g.points + 1
            &&& t.walls == g.walls && t.game_over == g.game_over
            &&& t.start_screen == g.start_screen && t.game_start == g.game_start
            &&& !t.game_fix
            &&& g.play_draws().subrange(0, 2000) == g.walls.draws()
            &&& g.play_draws().subrange(2000, 2012) == crate::game::title_draws(g.points)
            &&& p.direction <= UP && e.direction <= UP ==> {
                &&& g.play_draws()[2012] == p.heading_draw(Color::LightBlue)->0
                &&& g.play_draws()[2013] == e.heading_draw(Color::LightRed)->0
                &&& g.play_draws().len() == 2014 + g.blaze_draws().len()
            }
        }),
{
    law_title_draws(g.points);
    law_player_move(g.tick_start(), g.next_light_path(), g.next_dark_path());
    let m = g.tick_start().moved(g.next_light_path(), g.next_dark_path());
    law_opponent_move(m, g.next_light_path(), g.next_dark_path());
    let d = g.play_draws();
    assert(d.subrange(0, 2000) =~= g.walls.draws());
    assert(d.subrange(2000, 2012) =~= crate::game::title_draws(g.points));
    law_heading_shown(g.player, Color::LightBlue);
    law_heading_shown(g.enemy, Color::LightRed);
}

/// The player's trail after a tick is its trail with this tick's light laid
/// into the next slot, the slot moved on by one, and every counted light
/// moved behind its cycle; the same holds of the opponent's trail.
pub proof fn law_tick_trails(g: Game)
    ensures
        ({
            let t = g.light_path@.laid(g.blaze_light());
            let n = g.next_light_path();
            &&& n.count == t.count
            &&& n.last == t.last + 1
            &&& n.lights == t.placed().lights
        }),
        ({
            let t = g.dark_path@.laid(g.blaze_dark());
            let n = g.next_dark_path();
            &&& n.count == t.count
            &&& n.last == t.last + 1
            &&& n.lights == t.placed().lights
        }),
        g.blaze_light().user == g.player,
        g.blaze_light().x == g.player.x && g.blaze_light().y == g.player.y,
        (g.player.direction == DOWN || g.player.direction == UP) ==> g.blaze_light().axis == 1,
        (g.player.direction == RIGHT || g.player.direction == LEFT) ==> g.blaze_light().axis == 0,
        g.player.direction > UP ==> g.blaze_light().axis == g.light.axis,
        g.blaze_dark().user == g.enemy,
        g.blaze_dark().x == g.enemy.x && g.blaze_dark().y == g.enemy.y,
        (g.enemy.direction == DOWN || g.enemy.direction == UP) ==> g.blaze_dark().axis == 1,
        (g.enemy.direction == RIGHT || g.enemy.direction == LEFT) ==> g.blaze_dark().axis == 0,
        g.enemy.direction > UP ==> g.blaze_dark().axis == g.dark.axis,
{
}

} // verus!
