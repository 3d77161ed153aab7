//! The game: two light cycles in a walled arena, each leaving a trail; the
//! player steers with the arrow keys, the opponent steers itself, and the
//! player scores each time the opponent runs into a trail.
use vstd::prelude::*;
use crate::light::{Light, LightPath, TrailView, TRAIL_LEN};
use crate::arena::lemma_empty_trail_ring;
use crate::maps::{
    lemma_gameover_map, lemma_start_map, lemma_walls_border, lemma_walls_map, GAMEOVER, START,
    WALLS,
};
use crate::player::{Player, DOWN, LEFT, RIGHT, UP};
use crate::screen::{
    cell_char, op_seq, text_char_draw, text_draws, Color, ColorCode, Draw, BUFFER_HEIGHT,
    BUFFER_WIDTH,
};
use crate::walls::{screen_glyph, GameOver, Walls};

verus! {

/// The keys that the game tells apart.
#[derive(Clone, Copy, Debug, PartialEq, Eq)]
pub enum KeyCode {
    ArrowDown,
    ArrowUp,
    ArrowLeft,
    ArrowRight,
    /// Any other key without a character.
    Other,
}

/// A key press: a key without a character, or a character.
#[derive(Clone, Copy, Debug, PartialEq, Eq)]
pub enum DecodedKey {
    RawKey(KeyCode),
    Unicode(char),
}

/// The game's name, shown on the title line.
pub const TITLE: &'static str = "TORN";

/// The label of the score on the title line.
pub const SCORE_LABEL: &'static str = "Score: ";

/// Row of the title line.
pub const TITLE_ROW: usize = 1;

/// Column at which the game's name starts.
pub const TITLE_COL: usize = 30;

/// Column at which the score's label starts.
pub const SCORE_LABEL_COL: usize = 45;

/// Column at which the score starts.
pub const POINTS_COL: usize = 52;

/// The opponent at its starting place: five sixths of the way across, half
/// way down, heading left, with `turn_check` ticks before its first turn.
pub open spec fn fresh_enemy(turn_check: isize) -> Player {
    Player {
        x: (BUFFER_WIDTH * 5 / 6) as usize,
        y: (BUFFER_HEIGHT / 2) as usize,
        direction: LEFT,
        controlled: 0,
        turn_check,
    }
}

/// Light blue on black: the colour of the title line.
pub open spec fn title_color() -> ColorCode {
    ColorCode { foreground: Color::LightBlue, background: Color::Black }
}

/// Drawing the title line: the game's name, the score's label and the score.
pub open spec fn title_draws(points: usize) -> Seq<Draw> {
    text_draws(TITLE@, TITLE_COL as int, TITLE_ROW as int, title_color()) + text_draws(
        SCORE_LABEL@,
        SCORE_LABEL_COL as int,
        TITLE_ROW as int,
        title_color(),
    ) + seq![
        Draw::Number {
            num: points as isize,
            col: POINTS_COL,
            row: TITLE_ROW,
            color: title_color(),
        },
    ]
}

/// The trail that a tick leaves: `light` laid into the next slot, the slot
/// moved on, and every light moved behind its cycle.
pub open spec fn blazed(t: TrailView, light: Light) -> TrailView {
    t.laid(light).advanced().placed()
}

/// The cycle after the turn that `code` asks for.
pub open spec fn key_turn(p: Player, code: KeyCode) -> Player {
    match code {
        KeyCode::ArrowDown => p.turned_down(),
        KeyCode::ArrowUp => p.turned_up(),
        KeyCode::ArrowLeft => p.turned_left(),
        KeyCode::ArrowRight => p.turned_right(),
        KeyCode::Other => p,
    }
}

/// The turn that `code` asks for stays within the machine's integers.
pub open spec fn can_key_turn(p: Player, code: KeyCode) -> bool {
    match code {
        KeyCode::ArrowDown => p.can_turn_down(),
        KeyCode::ArrowUp => p.can_turn_up(),
        KeyCode::ArrowLeft => p.can_turn_left(),
        KeyCode::ArrowRight => p.can_turn_right(),
        KeyCode::Other => true,
    }
}

/// The whole state of a game.
pub struct Game {
    pub player: Player,
    pub walls: Walls,
    pub light_path: LightPath,
    pub light: Light,
    pub game_over: GameOver,
    pub end_set: bool,
    pub points: usize,
    pub enemy: Player,
    pub dark_path: LightPath,
    pub dark: Light,
    pub game_fix: bool,
    pub start_screen: GameOver,
    pub game_start: bool,
    pub tick: isize,
}

impl Game {
    /// A cycle at `p` would stand on a wall, or on a light of trail `lp` or of
    /// trail `dp`.
    pub open spec fn blocked(self, lp: TrailView, dp: TrailView, p: Player) -> bool {
        self.walls.walls[p.y as int][p.x as int] || lp.covers(p.x, p.y) || dp.covers(p.x, p.y)
    }

    /// Checking whether a cycle at `p` is blocked stays within the walls and
    /// the trails: `p` is on the screen, and each trail that is looked at
    /// can be looked through for `p`'s cell.
    pub open spec fn can_check(self, lp: TrailView, dp: TrailView, p: Player) -> bool {
        &&& p.on_screen()
        &&& !self.walls.walls[p.y as int][p.x as int] ==> lp.scannable(p.x, p.y)
        &&& !self.walls.walls[p.y as int][p.x as int] && !lp.covers(p.x, p.y) ==> dp.scannable(
            p.x,
            p.y,
        )
    }

    /// The game after a restart of the round: the player back at the start,
    /// a fresh opponent, the score and the tick count at 0.
    pub open spec fn redone(self) -> Game {
        Game {
            end_set: false,
            player: self.player.was_reset(),
            enemy: fresh_enemy(13),
            game_fix: false,
            points: 0,
            tick: 0,
            ..self
        }
    }

    /// The player's move, with trails `lp` and `dp`, stays within the
    /// machine's integers, the walls and the trails.
    pub open spec fn moving_ok(self, lp: TrailView, dp: TrailView) -> bool {
        &&& self.player.can_step()
        &&& !self.game_fix ==> self.can_check(lp, dp, self.player.stepped())
    }

    /// The game after the player's move, with trails `lp` and `dp`: after a
    /// restart was asked for, the round restarts; else the player moves one
    /// cell on when that cell is free, and the game ends when it is not.
    pub open spec fn moved(self, lp: TrailView, dp: TrailView) -> Game {
        if self.game_fix {
            self.redone()
        } else if !self.blocked(lp, dp, self.player.stepped()) {
            Game { player: self.player.stepped(), ..self }
        } else {
            Game { end_set: true, ..self }
        }
    }

    /// The opponent's move, with trails `lp` and `dp`, stays within the
    /// machine's integers, the walls and the trails.
    pub open spec fn groving_ok(self, lp: TrailView, dp: TrailView) -> bool {
        let f = self.enemy.stepped();
        &&& self.enemy.can_step()
        &&& self.can_check(lp, dp, f)
        &&& self.blocked(lp, dp, f) ==> if self.walls.walls[f.y as int][f.x as int] {
            &&& (self.enemy.direction == RIGHT || self.enemy.direction == LEFT)
                ==> self.enemy.can_turn_down()
            &&& (self.enemy.direction == DOWN || self.enemy.direction == UP)
                ==> self.enemy.can_turn_left()
        } else {
            self.points < usize::MAX
        }
    }

    /// The game after the opponent's move, with trails `lp` and `dp`: the
    /// opponent moves one cell on when that cell is free; before a wall it
    /// turns (down when it runs horizontally, left when it runs vertically);
    /// on a trail the player scores a point and a fresh opponent starts.
    pub open spec fn groved(self, lp: TrailView, dp: TrailView) -> Game {
        let f = self.enemy.stepped();
        if !self.blocked(lp, dp, f) {
            Game { enemy: f, ..self }
        } else if self.walls.walls[f.y as int][f.x as int] {
            Game {
                enemy: if self.enemy.direction == RIGHT || self.enemy.direction == LEFT {
                    self.enemy.turned_down()
                } else if self.enemy.direction == DOWN || self.enemy.direction == UP {
                    self.enemy.turned_left()
                } else {
                    self.enemy
                },
                ..self
            }
        } else {
            Game { points: (self.points + 1) as usize, enemy: fresh_enemy(13), ..self }
        }
    }

    /// The light that the player's cycle lays this tick.
    pub open spec fn blaze_light(self) -> Light {
        Light { user: self.player, ..self.light }.set_up()
    }

    /// The light that the opponent's cycle lays this tick.
    pub open spec fn blaze_dark(self) -> Light {
        Light { user: self.enemy, ..self.dark }.set_up()
    }

    /// Laying and drawing this tick's lights stays within the trails and the
    /// machine's integers.
    pub open spec fn blaze_ok(self) -> bool {
        &&& self.light_path@.laid(self.blaze_light()).can_draw()
        &&& self.dark_path@.laid(self.blaze_dark()).can_draw()
    }

    /// What laying this tick's lights draws: the player's trail, then the
    /// opponent's.
    pub open spec fn blaze_draws(self) -> Seq<Draw> {
        self.light_path@.laid(self.blaze_light()).draws() + self.dark_path@.laid(
            self.blaze_dark(),
        ).draws()
    }

    /// The game is running: started and not over.
    pub open spec fn playing(self) -> bool {
        self.game_start && !self.end_set
    }

    /// The game as the moves of a tick see it: the tick counted and this
    /// tick's lights set up.
    pub open spec fn tick_start(self) -> Game {
        Game {
            tick: (self.tick + 1) as isize,
            light: self.blaze_light(),
            dark: self.blaze_dark(),
            ..self
        }
    }

    /// The player's trail after this tick.
    pub open spec fn next_light_path(self) -> TrailView {
        blazed(self.light_path@, self.blaze_light())
    }

    /// The opponent's trail after this tick.
    pub open spec fn next_dark_path(self) -> TrailView {
        blazed(self.dark_path@, self.blaze_dark())
    }

    /// The game after both moves of a tick, before the opponent steers.
    pub open spec fn tick_moved(self) -> Game {
        self.tick_start().moved(self.next_light_path(), self.next_dark_path()).groved(
            self.next_light_path(),
            self.next_dark_path(),
        )
    }

    /// The game after a tick of a running game, but for its two trails,
    /// which are `next_light_path` and `next_dark_path`.
    pub open spec fn ticked(self) -> Game {
        Game {
            enemy: self.tick_moved().enemy.after_stance(self.tick_moved().tick),
            ..self.tick_moved()
        }
    }

    /// A tick stays within the machine's integers, the walls and the trails.
    pub open spec fn tick_ok(self) -> bool {
        if !self.game_start {
            true
        } else if self.end_set {
            self.points <= isize::MAX
        } else {
            let lp = self.next_light_path();
            let dp = self.next_dark_path();
            &&& self.tick < isize::MAX
            &&& self.points <= isize::MAX
            &&& self.blaze_ok()
            &&& self.tick_start().moving_ok(lp, dp)
            &&& self.tick_start().moved(lp, dp).groving_ok(lp, dp)
            &&& self.tick_moved().enemy.can_stance(self.tick_moved().tick)
        }
    }

    /// What a tick of a running game draws: the arena, the title line, the
    /// two cycles, then the two trails.
    pub open spec fn play_draws(self) -> Seq<Draw> {
        self.walls.draws() + title_draws(self.points) + op_seq(
            self.player.heading_draw(Color::LightBlue),
        ) + op_seq(self.enemy.heading_draw(Color::LightRed)) + self.blaze_draws()
    }

    /// The game after the key press `key`.
    pub open spec fn after_key(self, key: DecodedKey) -> Game {
        match key {
            DecodedKey::RawKey(code) => {
                let f = key_turn(self.player, code);
                if !self.blocked(self.light_path@, self.dark_path@, f) {
                    Game { player: f, ..self }
                } else {
                    self
                }
            },
            DecodedKey::Unicode(c) => {
                let g1 = if c == 'r' {
                    Game {
                        end_set: false,
                        game_start: false,
                        game_fix: true,
                        player: self.player.was_reset(),
                        enemy: fresh_enemy(13),
                        dark_path: LightPath::empty(),
                        light_path: LightPath::empty(),
                        ..self
                    }
                } else {
                    self
                };
                let g2 = if c == 'e' {
                    Game { end_set: true, ..g1 }
                } else {
                    g1
                };
                if c == 'p' {
                    Game { game_start: true, ..g2 }
                } else {
                    g2
                }
            },
        }
    }

    /// Handling the key press `key` stays within the machine's integers, the
    /// walls and the trails.
    pub open spec fn key_ok(self, key: DecodedKey) -> bool {
        match key {
            DecodedKey::RawKey(code) => {
                &&& can_key_turn(self.player, code)
                &&& self.can_check(self.light_path@, self.dark_path@, key_turn(self.player, code))
            },
            DecodedKey::Unicode(_) => true,
        }
    }

    /// Whether a cycle at `p` can be checked against the walls and the trails
    /// `lp` and `dp` (see `can_check`).
    fn check_fits(&self, lp: &LightPath, dp: &LightPath, p: Player) -> (b: bool)
        ensures
            b == self.can_check(lp@, dp@, p),
    {
        if p.x >= BUFFER_WIDTH || p.y >= BUFFER_HEIGHT {
            return false;
        }
        if self.walls.occupied(p.y, p.x) {
            return true;
        }
        if !scannable(lp, p) {
            return false;
        }
        if p.is_crashing(*lp) {
            return true;
        }
        scannable(dp, p)
    }

    /// Whether a cycle at `p` is blocked by a wall or a light of `lp` or `dp`.
    fn blocked_at(&self, lp: &LightPath, dp: &LightPath, p: Player) -> (b: bool)
        requires
            self.can_check(lp@, dp@, p),
        ensures
            b == self.blocked(lp@, dp@, p),
    {
        p.is_colliding(&self.walls) || p.is_crashing(*lp) || p.is_crashing(*dp)
    }

    /// Whether the key press `key` can be handled (see `key_ok`); in a sound
    /// game it always can.
    pub fn can_key(&self, key: DecodedKey) -> (b: bool)
        ensures
            b == self.key_ok(key),
    {
        match key {
            DecodedKey::RawKey(code) => {
                let p = self.player;
                let fits = match code {
                    KeyCode::ArrowDown => p.direction == UP || p.y < usize::MAX,
                    KeyCode::ArrowUp => p.direction == DOWN || p.y > 0,
                    KeyCode::ArrowLeft => p.direction == RIGHT || p.x > 0,
                    KeyCode::ArrowRight => p.direction == LEFT || p.x < usize::MAX,
                    KeyCode::Other => true,
                };
                if !fits {
                    return false;
                }
                let mut future = p;
                match code {
                    KeyCode::ArrowDown => future.down(),
                    KeyCode::ArrowUp => future.up(),
                    KeyCode::ArrowLeft => future.left(),
                    KeyCode::ArrowRight => future.right(),
                    KeyCode::Other => {},
                }
                self.check_fits(&self.light_path, &self.dark_path, future)
            },
            DecodedKey::Unicode(_) => true,
        }
    }

    /// Whether a tick can be run (see `tick_ok`).
    pub fn can_tick(&self) -> (b: bool)
        ensures
            b == self.tick_ok(),
    {
        if !self.game_start {
            return true;
        }
        if self.end_set {
            return self.points <= isize::MAX as usize;
        }
        if self.tick == isize::MAX || self.points > isize::MAX as usize {
            return false;
        }
        let mut light = self.light;
        light.user = self.player;
        light.setup();
        let mut dark = self.dark;
        dark.user = self.enemy;
        dark.setup();
        if !laid_can_draw(&self.light_path, light) || !laid_can_draw(&self.dark_path, dark) {
            return false;
        }
        let mut lp = self.light_path;
        lp.generate(light);
        lp.trail_iter += 1;
        proof {
            let laid = self.light_path@.laid(light);
            assert forall|i: int| 0 <= i < lp@.count implies #[trigger] lp@.lights[
                i
            ].can_draw() by {
                assert(laid.lights[i].can_draw());
            }
        }
        let _ = lp.draw();
        let mut dp = self.dark_path;
        dp.generate(dark);
        dp.trail_iter += 1;
        proof {
            let laid = self.dark_path@.laid(dark);
            assert forall|i: int| 0 <= i < dp@.count implies #[trigger] dp@.lights[
                i
            ].can_draw() by {
                assert(laid.lights[i].can_draw());
            }
        }
        let _ = dp.draw();
        assert(lp@ == self.next_light_path());
        assert(dp@ == self.next_dark_path());
        // the player's move
        if !step_fits(self.player) {
            return false;
        }
        if !self.game_fix && !self.check_fits(&lp, &dp, step(self.player)) {
            return false;
        }
        // the opponent's move, after a restart of the round when one was asked for
        let enemy = if self.game_fix {
            Player {
                x: (BUFFER_WIDTH * 5) / 6,
                y: BUFFER_HEIGHT / 2,
                direction: LEFT,
                controlled: 0,
                turn_check: 13,
            }
        } else {
            self.enemy
        };
        let points = if self.game_fix {
            0
        } else {
            self.points
        };
        let tick = if self.game_fix {
            0
        } else {
            self.tick + 1
        };
        if !step_fits(enemy) {
            return false;
        }
        let f = step(enemy);
        if !self.check_fits(&lp, &dp, f) {
            return false;
        }
        let mut next = enemy;
        if self.blocked_at(&lp, &dp, f) {
            if self.walls.occupied(f.y, f.x) {
                if enemy.direction == RIGHT || enemy.direction == LEFT {
                    if !(enemy.direction == UP || enemy.y < usize::MAX) {
                        return false;
                    }
                    next.down();
                } else if enemy.direction == DOWN || enemy.direction == UP {
                    if !(enemy.direction == RIGHT || enemy.x > 0) {
                        return false;
                    }
                    next.left();
                }
            } else {
                if points == usize::MAX {
                    return false;
                }
                next = Player {
                    x: (BUFFER_WIDTH * 5) / 6,
                    y: BUFFER_HEIGHT / 2,
                    direction: LEFT,
                    controlled: 0,
                    turn_check: 13,
                };
            }
        } else {
            next = f;
        }
        stance_fits(next, tick)
    }

    /// A new game, on its start screen: the player's cycle at its starting
    /// place, the opponent at its own with 10 ticks before its first turn,
    /// empty trails, no score.
    pub fn new() -> (g: Self)
        ensures
            g.player == Player::start(),
            forall|r: int, c: int|
                0 <= r < BUFFER_HEIGHT && 0 <= c < BUFFER_WIDTH
                    ==> #[trigger] g.walls.walls[r][c] == (cell_char(WALLS@, r, c) == Some('#')),
            g.light_path == LightPath::empty(),
            g.light == Light::blank(),
            forall|r: int, c: int|
                0 <= r < BUFFER_HEIGHT && 0 <= c < BUFFER_WIDTH
                    ==> #[trigger] g.game_over.screen[r][c] == screen_glyph(GAMEOVER@, r, c),
            g.game_over.points == 0,
            g.game_over.over,
            !g.end_set,
            g.points == 0,
            g.enemy == fresh_enemy(10),
            g.dark_path == LightPath::empty(),
            g.dark == Light::blank(),
            !g.game_fix,
            forall|r: int, c: int|
                0 <= r < BUFFER_HEIGHT && 0 <= c < BUFFER_WIDTH
                    ==> #[trigger] g.start_screen.screen[r][c] == screen_glyph(START@, r, c),
            g.start_screen.points == 0,
            g.start_screen.over,
            !g.game_start,
            g.tick == 0,
            g.sound(),
    {
        proof {
            lemma_walls_border();
            lemma_empty_trail_ring();
            lemma_walls_map();
            lemma_gameover_map();
            lemma_start_map();
        }
        Game {
            player: Player::new(),
            walls: Walls::new(WALLS),
            light_path: LightPath::new(),
            light: Light::new(),
            game_over: GameOver::new(GAMEOVER),
            end_set: false,
            points: 0,
            enemy: Player {
                x: (BUFFER_WIDTH * 5) / 6,
                y: BUFFER_HEIGHT / 2,
                direction: LEFT,
                controlled: 0,
                turn_check: 10,
            },
            dark_path: LightPath::new(),
            dark: Light::new(),
            game_fix: false,
            start_screen: GameOver::new(START),
            game_start: false,
            tick: 0,
        }
    }

    /// One timer tick. Before the game starts it shows the start screen;
    /// once it is over it shows the end screen with the score, and the title
    /// line; while it runs it draws the arena, the title line and the cycles,
    /// lays and draws the trails, moves the player and the opponent and
    /// steers the opponent.
    pub fn tick(&mut self) -> (ops: Vec<Draw>)
        requires
            old(self).tick_ok(),
        ensures
            !old(self).game_start ==> *final(self) == (Game {
                start_screen: GameOver { over: false, ..old(self).start_screen },
                ..*old(self)
            }) && ops@ == final(self).start_screen.draws(),
            old(self).game_start && old(self).end_set ==> *final(self) == (Game {
                game_over: GameOver { points: old(self).points, ..old(self).game_over },
                ..*old(self)
            }) && ops@ == final(self).game_over.draws() + title_draws(old(self).points),
            old(self).playing() ==> {
                &&& final(self).light_path@ == old(self).next_light_path()
                &&& final(self).dark_path@ == old(self).next_dark_path()
                &&& *final(self) == (Game {
                    light_path: final(self).light_path,
                    dark_path: final(self).dark_path,
                    ..old(self).ticked()
                })
                &&& ops@ == old(self).play_draws()
            },
    {
        if !self.game_start {
            self.start_screen.over = false;
            self.start_screen.draw()
        } else {
            if !self.end_set {
                self.tick += 1;
                let mut ops = self.walls.draw();
                let mut title = self.draw_title();
                ops.append(&mut title);
                match self.player.bike_dir() {
                    Some(op) => ops.push(op),
                    None => {},
                }
                match self.enemy.motor_dir() {
                    Some(op) => ops.push(op),
                    None => {},
                }
                let mut trails = self.trail_blaze();
                ops.append(&mut trails);
                self.moving();
                self.groving();
                self.enemy.travel_stance(self.tick);
                ops
            } else {
                self.game_over.points = self.points;
                let mut ops = self.game_over.draw();
                let mut title = self.draw_title();
                ops.append(&mut title);
                ops
            }
        }
    }

    /// Draws the title line: the game's name, the score's label and the
    /// score, in light blue.
    pub fn draw_title(&mut self) -> (ops: Vec<Draw>)
        requires
            old(self).points <= isize::MAX,
        ensures
            *final(self) == *old(self),
            ops@ == title_draws(old(self).points),
    {
        title_ops(self.points)
    }

    /// Handles a key press: an arrow turns the player's cycle when the cell it
    /// turns onto is free; `r` restarts (back to the start screen, with empty
    /// trails, and a restart of the round asked for); `e` ends the game; `p`
    /// starts it.
    pub fn key(&mut self, key: DecodedKey)
        requires
            old(self).key_ok(key),
        ensures
            *final(self) == old(self).after_key(key),
    {
        match key {
            DecodedKey::RawKey(key) => {
                let mut future = self.player;
                match key {
                    KeyCode::ArrowDown => {
                        future.down();
                    },
                    KeyCode::ArrowUp => {
                        future.up();
                    },
                    KeyCode::ArrowLeft => {
                        future.left();
                    },
                    KeyCode::ArrowRight => {
                        future.right();
                    },
                    _ => {},
                }
                if !future.is_colliding(&self.walls) && !future.is_crashing(self.light_path)
                    && !future.is_crashing(self.dark_path) {
                    self.player = future;
                }
            },
            DecodedKey::Unicode(key) => {
                if key == 'r' {
                    self.end_set = false;
                    self.game_start = false;
                    self.game_fix = true;
                    self.player.reset();
                    self.enemy = Player {
                        x: (BUFFER_WIDTH * 5) / 6,
                        y: BUFFER_HEIGHT / 2,
                        direction: LEFT,
                        controlled: 0,
                        turn_check: 13,
                    };
                    self.dark_path = LightPath::new();
                    self.light_path = LightPath::new();
                }
                if key == 'e' {
                    self.end_set = true;
                }
                if key == 'p' {
                    self.game_start = true;
                }
            },
        }
    }

    /// Moves the player's cycle (see `moved`).
    pub fn moving(&mut self)
        requires
            old(self).moving_ok(old(self).light_path@, old(self).dark_path@),
        ensures
            *final(self) == old(self).moved(old(self).light_path@, old(self).dark_path@),
    {
        let mut future = self.player;
        if future.direction == RIGHT {
            future.x += 1;
        } else if future.direction == LEFT {
            future.x -= 1;
        } else if future.direction == DOWN {
            future.y += 1;
        } else if future.direction == UP {
            future.y -= 1;
        }
        if self.game_fix {
            future.reset();
            self.redo();
        } else {
            if !future.is_colliding(&self.walls) && !future.is_crashing(self.light_path)
                && !future.is_crashing(self.dark_path) {
                self.player = future;
            } else {
                self.end_set = true;
            }
        }
    }

    /// Moves the opponent's cycle (see `groved`).
    pub fn groving(&mut self)
        requires
            old(self).groving_ok(old(self).light_path@, old(self).dark_path@),
        ensures
            *final(self) == old(self).groved(old(self).light_path@, old(self).dark_path@),
    {
        let mut future = self.enemy;
        if future.direction == RIGHT {
            future.x += 1;
        } else if future.direction == LEFT {
            future.x -= 1;
        } else if future.direction == DOWN {
            future.y += 1;
        } else if future.direction == UP {
            future.y -= 1;
        }
        if !future.is_colliding(&self.walls) && !future.is_crashing(self.light_path)
            && !future.is_crashing(self.dark_path) {
            self.enemy = future;
        } else if future.is_colliding(&self.walls) {
            if self.enemy.direction == RIGHT || self.enemy.direction == LEFT {
                self.enemy.down();
            } else if self.enemy.direction == DOWN || self.enemy.direction == UP {
                self.enemy.left();
            }
        } else {
            self.points += 1;
            self.enemy = Player {
                x: (BUFFER_WIDTH * 5) / 6,
                y: BUFFER_HEIGHT / 2,
                direction: LEFT,
                controlled: 0,
                turn_check: 13,
            };
        }
    }

    /// Lays this tick's light of each cycle into its trail and draws both
    /// trails.
    pub fn trail_blaze(&mut self) -> (ops: Vec<Draw>)
        requires
            old(self).blaze_ok(),
        ensures
            final(self).light_path@ == old(self).next_light_path(),
            final(self).dark_path@ == old(self).next_dark_path(),
            *final(self) == (Game {
                light: old(self).blaze_light(),
                dark: old(self).blaze_dark(),
                light_path: final(self).light_path,
                dark_path: final(self).dark_path,
                ..*old(self)
            }),
            ops@ == old(self).blaze_draws(),
    {
        self.light.user = self.player;
        self.light.setup();
        self.light_path.generate(self.light);
        self.light_path.trail_iter += 1;
        proof {
            let laid = old(self).light_path@.laid(old(self).blaze_light());
            assert(self.light_path@ == laid.advanced());
            assert forall|i: int| 0 <= i < self.light_path@.count implies #[trigger] self.light_path@.lights[
                i
            ].can_draw() by {
                assert(laid.lights[i].can_draw());
            }
        }
        let mut ops = self.light_path.draw();
        self.dark.user = self.enemy;
        self.dark.setup();
        self.dark_path.generate(self.dark);
        self.dark_path.trail_iter += 1;
        proof {
            let laid = old(self).dark_path@.laid(old(self).blaze_dark());
            assert(self.dark_path@ == laid.advanced());
            assert forall|i: int| 0 <= i < self.dark_path@.count implies #[trigger] self.dark_path@.lights[
                i
            ].can_draw() by {
                assert(laid.lights[i].can_draw());
            }
        }
        let mut dark_ops = self.dark_path.draw();
        ops.append(&mut dark_ops);
        ops
    }

    /// Restarts the round: the player back at the start, a fresh opponent,
    /// the score and the tick count at 0.
    pub fn redo(&mut self)
        ensures
            *final(self) == old(self).redone(),
    {
        self.end_set = false;
        self.player.reset();
        self.enemy = Player {
            x: (BUFFER_WIDTH * 5) / 6,
            y: BUFFER_HEIGHT / 2,
            direction: LEFT,
            controlled: 0,
            turn_check: 13,
        };
        self.game_fix = false;
        self.points = 0;
        self.tick = 0;
    }
}

/// Draws the characters of `text` from column `col` of row `row` rightwards,
/// after the operations already in `ops`.
fn push_text(ops: &mut Vec<Draw>, text: &str, col: usize, row: usize, color: ColorCode)
    requires
        col + text@.len() <= usize::MAX,
    ensures
        final(ops)@ == old(ops)@ + text_draws(text@, col as int, row as int, color),
{
    let ghost start = ops@;
    let mut pos: usize = col;
    for c in it: text.chars()
        invariant
            it.seq() == text@,
            col + text@.len() <= usize::MAX,
            pos == col + it.index(),
            ops@ == start + text_draws(text@, col as int, row as int, color).take(it.index()),
    {
        assert(c == text@[it.index() as int]);
        ops.push(Draw::Char { ch: c, col: pos, row, color });
        assert(ops@.last() == text_char_draw(text@, col as int, row as int, color, it.index()));
        assert(ops@ =~= start + text_draws(text@, col as int, row as int, color).take(
            it.index() + 1,
        ));
        pos += 1;
    }
    assert(text_draws(text@, col as int, row as int, color).take(text@.len() as int) =~= text_draws(
        text@,
        col as int,
        row as int,
        color,
    ));
}

/// Drawing the title line with score `points`.
fn title_ops(points: usize) -> (ops: Vec<Draw>)
    requires
        points <= isize::MAX,
    ensures
        ops@ == title_draws(points),
{
    let title = TITLE;
    let score = SCORE_LABEL;
    proof {
        reveal_strlit("TORN");
        reveal_strlit("Score: ");
    }
    let mut ops: Vec<Draw> = Vec::new();
    let color = ColorCode::new(Color::LightBlue, Color::Black);
    push_text(&mut ops, title, TITLE_COL, TITLE_ROW, color);
    push_text(&mut ops, score, SCORE_LABEL_COL, TITLE_ROW, color);
    ops.push(Draw::Number { num: points as isize, col: POINTS_COL, row: TITLE_ROW, color });
    assert(ops@ =~= title_draws(points));
    ops
}

/// Whether a step of `p` along its heading stays within the machine's
/// integers.
fn step_fits(p: Player) -> (b: bool)
    ensures
        b == p.can_step(),
{
    !(p.direction == RIGHT && p.x == usize::MAX) && !(p.direction == LEFT && p.x == 0) && !(
    p.direction == DOWN && p.y == usize::MAX) && !(p.direction == UP && p.y == 0)
}

/// The cycle `p` one cell further along its heading.
fn step(p: Player) -> (q: Player)
    requires
        p.can_step(),
    ensures
        q == p.stepped(),
{
    let mut q = p;
    if q.direction == RIGHT {
        q.x += 1;
    } else if q.direction == LEFT {
        q.x -= 1;
    } else if q.direction == DOWN {
        q.y += 1;
    } else if q.direction == UP {
        q.y -= 1;
    }
    q
}

/// Whether the opponent's steering of `p` at tick `tick` stays within the
/// machine's integers.
fn stance_fits(p: Player, tick: isize) -> (b: bool)
    ensures
        b == p.can_stance(tick),
{
    if p.turn_check != 0 {
        return true;
    }
    if p.direction == RIGHT || p.direction == LEFT {
        if tick % 3 == 0 {
            p.direction == DOWN || p.y > 0
        } else if tick % 2 == 0 {
            p.direction == UP || p.y < usize::MAX
        } else {
            true
        }
    } else if p.direction == DOWN || p.direction == UP {
        if tick % 3 == 0 {
            p.direction == RIGHT || p.x > 0
        } else if tick % 2 == 0 {
            p.direction == LEFT || p.x < usize::MAX
        } else {
            true
        }
    } else {
        true
    }
}

/// Whether `light` can be moved behind its cycle within the machine's
/// integers.
fn light_fits(light: &Light) -> (b: bool)
    ensures
        b == light.can_draw(),
{
    let u = light.user;
    if !((u.controlled == 1 || u.controlled == 0) && (light.axis == 0 || light.axis == 1)) {
        return true;
    }
    if light.axis == 0 {
        !(u.direction == RIGHT && u.x == 0) && !(u.direction == LEFT && u.x == usize::MAX)
    } else {
        !(u.direction == DOWN && u.y == 0) && !(u.direction == UP && u.y == usize::MAX)
    }
}

/// Whether, after laying `light` into `path`, every light counted can be
/// drawn.
fn laid_can_draw(path: &LightPath, light: Light) -> (b: bool)
    ensures
        b == path@.laid(light).can_draw(),
{
    let ghost laid = path@.laid(light);
    let slot = if path.trail_iter >= TRAIL_LEN {
        0
    } else {
        path.trail_iter
    };
    let count = if path.check_clear < TRAIL_LEN {
        path.check_clear + 1
    } else {
        path.check_clear
    };
    if count > TRAIL_LEN {
        return false;
    }
    let mut i: usize = 0;
    while i < count
        invariant
            count == laid.count,
            count <= TRAIL_LEN,
            slot == path@.next_slot(),
            laid == path@.laid(light),
            i <= count,
            forall|j: int| 0 <= j < i ==> #[trigger] laid.lights[j].can_draw(),
        decreases count - i,
    {
        let l = if i == slot {
            light
        } else {
            path.trail[i]
        };
        assert(l == laid.lights[i as int]);
        if !light_fits(&l) {
            return false;
        }
        i += 1;
    }
    true
}

/// Whether `path` can be looked through for a light on the cell of `p`.
fn scannable(path: &LightPath, p: Player) -> (b: bool)
    ensures
        b == path@.scannable(p.x, p.y),
{
    if path.check_clear <= TRAIL_LEN {
        return true;
    }
    let mut i: usize = 0;
    while i < TRAIL_LEN
        invariant
            path.check_clear > TRAIL_LEN,
            i <= TRAIL_LEN,
            forall|j: int|
                0 <= j < i ==> !(#[trigger] path@.lights[j].x == p.x && path@.lights[j].y == p.y),
        decreases TRAIL_LEN - i,
    {
        if path.trail[i].x == p.x && path.trail[i].y == p.y {
            assert(path@.lights[i as int].x == p.x);
            return true;
        }
        i += 1;
    }
    false
}

} // verus!
