//! What the game keeps true from one step to the next: the arena is walled
//! in, the player's cycle stays inside it, and each trail counts no more
//! lights than it holds. In such a game every key press is handled within
//! the screen and the machine's integers, and so is the player's move.
use vstd::prelude::*;
use crate::game::{blazed, fresh_enemy, key_turn, DecodedKey, Game, KeyCode};
use crate::light::{Light, LightPath, TrailView, TRAIL_LEN};
use crate::maps::arena_border;
use crate::player::{Player, DOWN, LEFT, RIGHT, UP};
use crate::walls::Walls;

verus! {

/// Every cell on the border of the arena's box is a wall.
pub open spec fn is_arena(w: Walls) -> bool {
    forall|r: int, c: int| arena_border(r, c) ==> #[trigger] w.walls[r][c]
}

/// The cycle stands strictly inside the arena's box.
pub open spec fn in_arena(p: Player) -> bool {
    1 <= p.x <= 78 && 4 <= p.y <= 23
}

/// The trail's ring is in order: it holds `TRAIL_LEN` lights, counts no
/// more lights than it holds, and until it is full, the next slot is the one
/// after the last light laid.
pub open spec fn ring_ok(t: TrailView) -> bool {
    &&& t.lights.len() == TRAIL_LEN
    &&& t.count <= TRAIL_LEN
    &&& t.last <= TRAIL_LEN
    &&& t.count < TRAIL_LEN ==> t.last == t.count
}

impl Game {
    /// The game is sound: a walled arena with the player's cycle inside it,
    /// and both trails' rings in order.
    pub open spec fn sound(self) -> bool {
        &&& is_arena(self.walls)
        &&& in_arena(self.player)
        &&& ring_ok(self.light_path@)
        &&& ring_ok(self.dark_path@)
    }
}

/// A cycle inside the arena that moves by one cell lands on the screen, and
/// either inside the arena again or on a wall.
proof fn lemma_one_step_from_arena(w: Walls, p: Player, q: Player)
    requires
        is_arena(w),
        in_arena(p),
        p.x - 1 <= q.x <= p.x + 1,
        p.y - 1 <= q.y <= p.y + 1,
    ensures
        q.on_screen(),
        in_arena(q) || w.walls[q.y as int][q.x as int],
{
    if !in_arena(q) {
        assert(arena_border(q.y as int, q.x as int));
    }
}

/// An empty trail's ring is in order.
pub proof fn lemma_empty_trail_ring()
    ensures
        ring_ok(LightPath::empty()@),
{
}

/// A trail whose ring is in order counts no more lights than it holds.
pub proof fn lemma_ring_wf(t: TrailView)
    requires
        ring_ok(t),
    ensures
        t.wf(),
{
}

/// Laying a light into a trail whose ring is in order keeps the ring in
/// order, and the light just laid is among the lights counted.
pub proof fn lemma_laid_counted(t: TrailView, light: Light)
    requires
        ring_ok(t),
    ensures
        0 <= t.laid(light).last < t.laid(light).count,
        t.laid(light).lights[t.laid(light).last as int] == light,
        ring_ok(t.laid(light).advanced()),
{
}

/// A tick keeps each trail's ring in order, and the trail then shows the
/// light just laid at the place behind its cycle.
pub proof fn lemma_blazed_ring(t: TrailView, light: Light)
    requires
        ring_ok(t),
    ensures
        ring_ok(blazed(t, light)),
        blazed(t, light).covers(light.placed().x, light.placed().y),
{
    lemma_laid_counted(t, light);
    let b = blazed(t, light);
    let i = t.laid(light).last as int;
    assert(b.lights[i] == light.placed());
}

/// In a sound game every key press stays within the machine's integers, the
/// screen and the trails.
pub proof fn lemma_sound_key_ok(g: Game, key: DecodedKey)
    requires
        g.sound(),
    ensures
        g.key_ok(key),
{
    match key {
        DecodedKey::RawKey(code) => {
            let f = key_turn(g.player, code);
            lemma_one_step_from_arena(g.walls, g.player, f);
        },
        DecodedKey::Unicode(_) => {},
    }
}

/// A key press keeps a game sound.
pub proof fn lemma_key_keeps_sound(g: Game, key: DecodedKey)
    requires
        g.sound(),
    ensures
        g.after_key(key).sound(),
{
    match key {
        DecodedKey::RawKey(code) => {
            let f = key_turn(g.player, code);
            lemma_one_step_from_arena(g.walls, g.player, f);
        },
        DecodedKey::Unicode(_) => {
            lemma_empty_trail_ring();
        },
    }
}

/// In a walled arena with the player's cycle inside, the player's move
/// stays within the machine's integers, the screen and the trails, given
/// trails that count no more lights than they hold.
pub proof fn lemma_arena_moving_ok(g: Game, lp: TrailView, dp: TrailView)
    requires
        is_arena(g.walls),
        in_arena(g.player),
        lp.wf(),
        dp.wf(),
    ensures
        g.moving_ok(lp, dp),
{
    lemma_one_step_from_arena(g.walls, g.player, g.player.stepped());
}

/// The player's move keeps its cycle inside a walled arena: it moves only
/// onto a free cell, and a restart puts it back at its starting place.
pub proof fn lemma_moved_in_arena(g: Game, lp: TrailView, dp: TrailView)
    requires
        is_arena(g.walls),
        in_arena(g.player),
    ensures
        in_arena(g.moved(lp, dp).player),
        g.moved(lp, dp).walls == g.walls,
{
    lemma_one_step_from_arena(g.walls, g.player, g.player.stepped());
}

/// A tick of a running sound game keeps it sound: the walls stay, the
/// player's cycle stays inside the arena and both trails' rings stay in
/// order.
pub proof fn lemma_tick_keeps_sound(g: Game)
    requires
        g.sound(),
        g.playing(),
    ensures
        g.ticked().walls == g.walls,
        in_arena(g.ticked().player),
        ring_ok(g.next_light_path()),
        ring_ok(g.next_dark_path()),
{
    lemma_blazed_ring(g.light_path@, g.blaze_light());
    lemma_blazed_ring(g.dark_path@, g.blaze_dark());
    lemma_moved_in_arena(g.tick_start(), g.next_light_path(), g.next_dark_path());
}

/// The player scores exactly when the opponent's next cell holds a light of
/// a trail and no wall; the score then goes up by one, and otherwise stays.
pub proof fn lemma_score_on_trail_crash(g: Game, lp: TrailView, dp: TrailView)
    ensures
        g.groved(lp, dp).points == if g.blocked(lp, dp, g.enemy.stepped())
            && !g.walls.walls[g.enemy.stepped().y as int][g.enemy.stepped().x as int] {
            (g.points + 1) as usize
        } else {
            g.points
        },
{
}

/// Within a running round (no restart asked for), a tick never lowers the
/// score.
pub proof fn lemma_tick_score_never_drops(g: Game)
    requires
        g.playing(),
        !g.game_fix,
        g.points < usize::MAX,
    ensures
        g.ticked().points >= g.points,
{
}

/// A cycle never turns back onto itself: a turn towards the opposite of
/// its heading leaves it as it is.
pub proof fn lemma_no_reverse_turn(p: Player, code: KeyCode)
    ensures
        p.direction == UP ==> key_turn(p, KeyCode::ArrowDown) == p,
        p.direction == DOWN ==> key_turn(p, KeyCode::ArrowUp) == p,
        p.direction == RIGHT ==> key_turn(p, KeyCode::ArrowLeft) == p,
        p.direction == LEFT ==> key_turn(p, KeyCode::ArrowRight) == p,
{
}

/// Moving a light behind its cycle twice is moving it once: drawing a trail
/// again does not shift it.
pub proof fn lemma_placed_idempotent(light: Light)
    ensures
        light.placed().placed() == light.placed(),
        light.placed().draw_op() == light.draw_op(),
{
}

/// Pressing `r` and then `p` starts a fresh round: the game runs with empty
/// trails, and the player's move of its first tick restarts the round, with
/// the player back at its starting place, a fresh opponent, and the score
/// and the tick count at 0.
pub proof fn lemma_restart_round(g: Game, lp: TrailView, dp: TrailView)
    ensures
        ({
            let h = g.after_key(DecodedKey::Unicode('r')).after_key(DecodedKey::Unicode('p'));
            &&& h.playing()
            &&& h.light_path == LightPath::empty()
            &&& h.dark_path == LightPath::empty()
            &&& h.tick_start().moved(lp, dp).player == g.player.was_reset()
            &&& h.tick_start().moved(lp, dp).enemy == fresh_enemy(13)
            &&& h.tick_start().moved(lp, dp).points == 0
            &&& h.tick_start().moved(lp, dp).tick == 0
            &&& !h.tick_start().moved(lp, dp).game_fix
        }),
{
}

} // verus!
