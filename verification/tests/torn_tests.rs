use torn::game::{DecodedKey, Game, KeyCode};
use torn::light::{Light, LightPath, TRAIL_LEN};
use torn::maps::{GAMEOVER, START, WALLS};
use torn::player::{Player, DOWN, LEFT, RIGHT, UP};
use torn::screen::{Color, ColorCode, Draw, BUFFER_HEIGHT, BUFFER_WIDTH};
use torn::walls::{GameOver, Walls};

fn white() -> ColorCode {
    ColorCode::new(Color::White, Color::Black)
}

fn blue() -> ColorCode {
    ColorCode::new(Color::LightBlue, Color::Black)
}

fn red() -> ColorCode {
    ColorCode::new(Color::LightRed, Color::Black)
}

fn player_at(x: usize, y: usize, direction: usize) -> Player {
    Player { x, y, direction, controlled: 1, turn_check: 0 }
}

fn enemy_at(x: usize, y: usize, direction: usize, turn_check: isize) -> Player {
    Player { x, y, direction, controlled: 0, turn_check }
}

fn running_game() -> Game {
    let mut g = Game::new();
    g.key(DecodedKey::Unicode('p'));
    g
}

// ---- walls and pictures ----

#[test]
fn walls_mark_hash_cells() {
    let w = Walls::new("#.#\n #");
    assert!(w.occupied(0, 0));
    assert!(!w.occupied(0, 1));
    assert!(w.occupied(0, 2));
    assert!(!w.occupied(1, 0));
    assert!(w.occupied(1, 1));
    assert!(!w.occupied(2, 0));
    assert!(!w.occupied(24, 79));
}

#[test]
fn walls_columns_count_bytes() {
    // 'é' takes two bytes, so the '#' after it lands on column 2.
    let w = Walls::new("é#");
    assert!(!w.occupied(0, 1));
    assert!(w.occupied(0, 2));
}

#[test]
fn arena_walls_form_a_box() {
    let w = Walls::new(WALLS);
    for c in 0..BUFFER_WIDTH {
        assert!(w.occupied(3, c));
        assert!(w.occupied(24, c));
        for r in 0..3 {
            assert!(!w.occupied(r, c));
        }
    }
    for r in 3..BUFFER_HEIGHT {
        assert!(w.occupied(r, 0));
        assert!(w.occupied(r, 79));
    }
    for r in 4..24 {
        for c in 1..79 {
            assert!(!w.occupied(r, c));
        }
    }
}

#[test]
fn walls_draw_every_cell_row_by_row() {
    let w = Walls::new(WALLS);
    let ops = w.draw();
    assert_eq!(ops.len(), BUFFER_WIDTH * BUFFER_HEIGHT);
    assert_eq!(ops[0], Draw::Char { ch: ' ', col: 0, row: 0, color: white() });
    assert_eq!(ops[3 * 80 + 5], Draw::Char { ch: '#', col: 5, row: 3, color: white() });
    assert_eq!(ops[12 * 80 + 40], Draw::Char { ch: ' ', col: 40, row: 12, color: white() });
    assert_eq!(ops[24 * 80 + 79], Draw::Char { ch: '#', col: 79, row: 24, color: white() });
}

#[test]
fn game_over_screen_reads_picture() {
    let g = GameOver::new(GAMEOVER);
    assert_eq!(g.points, 0);
    assert!(g.over);
    let word: String = (34..42).map(|c| g.screen[13][c]).collect();
    assert_eq!(word, "DEREZZED");
    assert_eq!(g.screen[0][0], ' ');
    assert_eq!(g.screen[3][0], '#');
}

#[test]
fn game_over_draw_ends_with_score() {
    let mut g = GameOver::new(GAMEOVER);
    g.points = 7;
    let ops = g.draw();
    assert_eq!(ops.len(), 2001);
    assert_eq!(ops[13 * 80 + 34], Draw::Char { ch: 'D', col: 34, row: 13, color: white() });
    assert_eq!(ops[2000], Draw::Number { num: 7, col: 41, row: 15, color: white() });
}

#[test]
fn hidden_score_is_not_drawn() {
    let mut g = GameOver::new(START);
    g.over = false;
    let ops = g.draw();
    assert_eq!(ops.len(), 2000);
    let word: String = (35..39).map(|c| g.screen[10][c]).collect();
    assert_eq!(word, "TORN");
}

#[test]
fn short_map_leaves_spaces() {
    let g = GameOver::new("ab\n\nc");
    assert_eq!(g.screen[0][0], 'a');
    assert_eq!(g.screen[0][1], 'b');
    assert_eq!(g.screen[0][2], ' ');
    assert_eq!(g.screen[1][0], ' ');
    assert_eq!(g.screen[2][0], 'c');
}

// ---- cycles ----

#[test]
fn player_starts_left_of_centre() {
    let p = Player::new();
    assert_eq!(p, Player { x: 13, y: 12, direction: RIGHT, controlled: 1, turn_check: 0 });
}

#[test]
fn reset_keeps_controller_and_countdown() {
    let mut p = Player { x: 40, y: 7, direction: UP, controlled: 0, turn_check: 3 };
    p.reset();
    assert_eq!(p, Player { x: 13, y: 12, direction: RIGHT, controlled: 0, turn_check: 3 });
}

#[test]
fn turns_move_one_cell() {
    let mut p = player_at(10, 10, RIGHT);
    p.down();
    assert_eq!((p.x, p.y, p.direction), (10, 11, DOWN));
    p.left();
    assert_eq!((p.x, p.y, p.direction), (9, 11, LEFT));
    p.up();
    assert_eq!((p.x, p.y, p.direction), (9, 10, UP));
    p.right();
    assert_eq!((p.x, p.y, p.direction), (10, 10, RIGHT));
}

#[test]
fn no_turn_back() {
    let mut p = player_at(10, 10, UP);
    p.down();
    assert_eq!(p, player_at(10, 10, UP));
    let mut p = player_at(10, 10, DOWN);
    p.up();
    assert_eq!(p, player_at(10, 10, DOWN));
    let mut p = player_at(10, 10, RIGHT);
    p.left();
    assert_eq!(p, player_at(10, 10, RIGHT));
    let mut p = player_at(10, 10, LEFT);
    p.right();
    assert_eq!(p, player_at(10, 10, LEFT));
}

#[test]
fn turning_the_same_way_moves_on() {
    let mut p = player_at(10, 10, DOWN);
    p.down();
    assert_eq!(p, player_at(10, 11, DOWN));
}

#[test]
fn colliding_with_arena_walls() {
    let w = Walls::new(WALLS);
    assert!(player_at(0, 10, RIGHT).is_colliding(&w));
    assert!(player_at(10, 3, RIGHT).is_colliding(&w));
    assert!(!player_at(10, 10, RIGHT).is_colliding(&w));
    assert!(!player_at(10, 1, RIGHT).is_colliding(&w));
}

#[test]
fn headings_are_drawn() {
    let mut p = player_at(5, 6, RIGHT);
    assert_eq!(p.bike_dir(), Some(Draw::Char { ch: '>', col: 5, row: 6, color: blue() }));
    p.direction = LEFT;
    assert_eq!(p.bike_dir(), Some(Draw::Char { ch: '<', col: 5, row: 6, color: blue() }));
    p.direction = DOWN;
    assert_eq!(p.motor_dir(), Some(Draw::Char { ch: 'v', col: 5, row: 6, color: red() }));
    p.direction = UP;
    assert_eq!(p.motor_dir(), Some(Draw::Char { ch: '^', col: 5, row: 6, color: red() }));
    p.direction = 9;
    assert_eq!(p.bike_dir(), None);
    assert_eq!(p, player_at(5, 6, 9));
}

#[test]
fn stance_counts_down() {
    let mut e = enemy_at(30, 10, LEFT, 2);
    e.travel_stance(3);
    assert_eq!(e, enemy_at(30, 10, LEFT, 1));
}

#[test]
fn stance_turns_up_on_third_ticks() {
    let mut e = enemy_at(30, 10, LEFT, 0);
    e.travel_stance(9);
    assert_eq!(e, enemy_at(30, 9, UP, 4));
}

#[test]
fn stance_turns_down_on_even_ticks() {
    let mut e = enemy_at(30, 10, RIGHT, 0);
    e.travel_stance(4);
    assert_eq!(e, enemy_at(30, 11, DOWN, 4));
}

#[test]
fn stance_keeps_heading_on_other_ticks() {
    let mut e = enemy_at(30, 10, RIGHT, 0);
    e.travel_stance(5);
    assert_eq!(e, enemy_at(30, 10, RIGHT, 4));
}

#[test]
fn vertical_stance_turns_left_or_right() {
    let mut e = enemy_at(30, 10, DOWN, 0);
    e.travel_stance(6);
    assert_eq!(e, enemy_at(29, 10, LEFT, 4));
    let mut e = enemy_at(30, 10, UP, 0);
    e.travel_stance(8);
    assert_eq!(e, enemy_at(31, 10, RIGHT, 4));
}

#[test]
fn negative_countdown_freezes_stance() {
    let mut e = enemy_at(30, 10, DOWN, -1);
    e.travel_stance(6);
    assert_eq!(e, enemy_at(30, 10, DOWN, -1));
}

// ---- lights and trails ----

#[test]
fn light_starts_blank() {
    let l = Light::new();
    assert_eq!(l.x, 0);
    assert_eq!(l.axis, 0);
    assert_eq!(l.user, Player { x: 0, y: 0, direction: 0, controlled: 0, turn_check: 0 });
}

#[test]
fn light_setup_takes_axis_of_heading() {
    let mut l = Light::new();
    l.user = player_at(10, 5, DOWN);
    l.setup();
    assert_eq!((l.x, l.y, l.axis), (10, 5, 1));
    l.user = player_at(11, 6, LEFT);
    l.setup();
    assert_eq!((l.x, l.y, l.axis), (11, 6, 0));
    l.user = player_at(12, 7, 8);
    l.setup();
    assert_eq!((l.x, l.y, l.axis), (12, 7, 0));
}

#[test]
fn light_is_drawn_behind_its_cycle() {
    let mut l = Light::new();
    l.user = player_at(10, 5, RIGHT);
    l.setup();
    let op = l.draw();
    assert_eq!(op, Some(Draw::Char { ch: '-', col: 9, row: 5, color: blue() }));
    assert_eq!((l.x, l.y), (9, 5));
    // drawing again does not move it
    let again = l.draw();
    assert_eq!(again, op);
    assert_eq!((l.x, l.y), (9, 5));
}

#[test]
fn vertical_lights() {
    let mut l = Light::new();
    l.user = enemy_at(10, 5, DOWN, 0);
    l.setup();
    assert_eq!(l.draw(), Some(Draw::Char { ch: '|', col: 10, row: 4, color: red() }));
    l.user = enemy_at(10, 5, UP, 0);
    l.setup();
    assert_eq!(l.draw(), Some(Draw::Char { ch: '|', col: 10, row: 6, color: red() }));
    assert_eq!((l.x, l.y), (10, 6));
}

#[test]
fn light_of_unknown_cycle_is_not_drawn() {
    let mut l = Light::new();
    l.user = Player { x: 10, y: 5, direction: RIGHT, controlled: 2, turn_check: 0 };
    l.setup();
    assert_eq!(l.draw(), None);
    assert_eq!((l.x, l.y), (10, 5));
}

#[test]
fn trail_starts_empty() {
    let t = LightPath::new();
    assert_eq!(t.trail_iter, 0);
    assert_eq!(t.check_clear, 0);
    assert!(t.trail.iter().all(|l| *l == Light::new()));
}

#[test]
fn trail_is_a_ring_of_twenty_five() {
    let mut t = LightPath::new();
    for i in 0..30 {
        let mut l = Light::new();
        l.x = i;
        t.generate(l);
        t.trail_iter += 1;
        assert!(t.check_clear <= TRAIL_LEN);
    }
    assert_eq!(t.check_clear, 25);
    // 30 lights went into 25 slots: the last five overwrote the first ones
    assert_eq!(t.trail[0].x, 25);
    assert_eq!(t.trail[4].x, 29);
    assert_eq!(t.trail[5].x, 5);
    assert_eq!(t.trail_iter, 5);
}

#[test]
fn generate_wraps_from_the_last_slot() {
    let mut t = LightPath::new();
    t.trail_iter = 25;
    let mut l = Light::new();
    l.y = 3;
    t.generate(l);
    assert_eq!(t.trail_iter, 0);
    assert_eq!(t.trail[0].y, 3);
    assert_eq!(t.check_clear, 1);
}

#[test]
fn trail_draw_moves_counted_lights() {
    let mut t = LightPath::new();
    let mut l = Light::new();
    l.user = player_at(20, 8, LEFT);
    l.setup();
    t.generate(l);
    t.trail_iter += 1;
    let mut m = Light::new();
    m.user = player_at(30, 9, UP);
    m.setup();
    t.generate(m);
    let ops = t.draw();
    assert_eq!(
        ops,
        vec![
            Draw::Char { ch: '-', col: 21, row: 8, color: blue() },
            Draw::Char { ch: '|', col: 30, row: 10, color: blue() },
        ]
    );
    assert_eq!((t.trail[0].x, t.trail[0].y), (21, 8));
    assert_eq!((t.trail[1].x, t.trail[1].y), (30, 10));
    assert_eq!(t.trail[2], Light::new());
}

#[test]
fn crashing_into_counted_lights_only() {
    let mut t = LightPath::new();
    let mut l = Light::new();
    l.x = 7;
    l.y = 8;
    t.generate(l);
    assert!(player_at(7, 8, RIGHT).is_crashing(t));
    assert!(!player_at(7, 9, RIGHT).is_crashing(t));
    // slot 1 holds a blank light at (0, 0), but it is not counted
    assert!(!player_at(0, 0, RIGHT).is_crashing(t));
}

// ---- the game ----

#[test]
fn new_game_waits_on_start_screen() {
    let g = Game::new();
    assert_eq!(g.player, Player::new());
    assert_eq!(g.enemy, enemy_at(66, 12, LEFT, 10));
    assert!(!g.game_start);
    assert!(!g.end_set);
    assert!(!g.game_fix);
    assert_eq!(g.points, 0);
    assert_eq!(g.tick, 0);
    assert_eq!(g.light_path, LightPath::new());
    assert_eq!(g.dark_path, LightPath::new());
    assert!(g.walls.occupied(3, 0));
    assert_eq!(g.start_screen.screen[13][29], 'P');
    assert_eq!(g.game_over.screen[15][34], 'S');
}

#[test]
fn tick_before_start_shows_start_screen() {
    let mut g = Game::new();
    let ops = g.tick();
    assert_eq!(ops.len(), 2000);
    assert!(!g.start_screen.over);
    assert_eq!(ops[10 * 80 + 35], Draw::Char { ch: 'T', col: 35, row: 10, color: white() });
    assert_eq!(g.tick, 0);
    assert_eq!(g.player, Player::new());
}

#[test]
fn p_starts_the_game() {
    let g = running_game();
    assert!(g.game_start);
}

#[test]
fn e_ends_the_game() {
    let mut g = running_game();
    g.key(DecodedKey::Unicode('e'));
    assert!(g.end_set);
}

#[test]
fn other_characters_do_nothing() {
    let mut g = running_game();
    g.key(DecodedKey::Unicode('x'));
    assert!(g.game_start && !g.end_set && !g.game_fix);
    assert_eq!(g.player, Player::new());
}

#[test]
fn title_line() {
    let mut g = running_game();
    g.points = 12;
    let ops = g.draw_title();
    let mut expected = Vec::new();
    for (i, c) in "TORN".chars().enumerate() {
        expected.push(Draw::Char { ch: c, col: 30 + i, row: 1, color: blue() });
    }
    for (i, c) in "Score: ".chars().enumerate() {
        expected.push(Draw::Char { ch: c, col: 45 + i, row: 1, color: blue() });
    }
    expected.push(Draw::Number { num: 12, col: 52, row: 1, color: blue() });
    assert_eq!(ops, expected);
}

#[test]
fn first_tick_of_play() {
    let mut g = running_game();
    let ops = g.tick();
    // arena, title line, two headings, one light of each trail
    assert_eq!(ops.len(), 2000 + 12 + 2 + 2);
    assert_eq!(ops[2012], Draw::Char { ch: '>', col: 13, row: 12, color: blue() });
    assert_eq!(ops[2013], Draw::Char { ch: '<', col: 66, row: 12, color: red() });
    assert_eq!(ops[2014], Draw::Char { ch: '-', col: 12, row: 12, color: blue() });
    assert_eq!(ops[2015], Draw::Char { ch: '-', col: 67, row: 12, color: red() });
    assert_eq!(g.tick, 1);
    assert_eq!((g.player.x, g.player.y), (14, 12));
    assert_eq!((g.enemy.x, g.enemy.y), (65, 12));
    assert_eq!(g.enemy.turn_check, 9);
    assert_eq!(g.light_path.check_clear, 1);
    assert_eq!(g.light_path.trail_iter, 1);
    assert_eq!(g.dark_path.check_clear, 1);
    assert!(!g.end_set);
}

#[test]
fn arrow_turns_player_onto_free_cell() {
    let mut g = running_game();
    g.key(DecodedKey::RawKey(KeyCode::ArrowDown));
    assert_eq!(g.player, player_at(13, 13, DOWN));
    g.key(DecodedKey::RawKey(KeyCode::ArrowUp));
    assert_eq!(g.player, player_at(13, 13, DOWN));
    g.key(DecodedKey::RawKey(KeyCode::Other));
    assert_eq!(g.player, player_at(13, 13, DOWN));
}

#[test]
fn arrow_into_wall_is_refused() {
    let mut g = running_game();
    g.player = player_at(5, 4, RIGHT);
    g.key(DecodedKey::RawKey(KeyCode::ArrowUp));
    assert_eq!(g.player, player_at(5, 4, RIGHT));
}

#[test]
fn arrow_into_trail_is_refused() {
    let mut g = running_game();
    let mut l = Light::new();
    l.x = 13;
    l.y = 11;
    g.dark_path.generate(l);
    g.key(DecodedKey::RawKey(KeyCode::ArrowUp));
    assert_eq!(g.player, Player::new());
}

#[test]
fn running_into_wall_ends_the_game() {
    let mut g = running_game();
    g.player = player_at(78, 10, RIGHT);
    g.moving();
    assert!(g.end_set);
    assert_eq!(g.player, player_at(78, 10, RIGHT));
}

#[test]
fn moving_onto_free_cell() {
    let mut g = running_game();
    g.player = player_at(20, 10, UP);
    g.moving();
    assert_eq!(g.player, player_at(20, 9, UP));
    assert!(!g.end_set);
}

#[test]
fn game_over_tick_shows_score() {
    let mut g = running_game();
    g.points = 3;
    g.key(DecodedKey::Unicode('e'));
    let before_player = g.player;
    let ops = g.tick();
    assert_eq!(g.game_over.points, 3);
    assert_eq!(ops.len(), 2001 + 12);
    assert_eq!(ops[2000], Draw::Number { num: 3, col: 41, row: 15, color: white() });
    assert_eq!(ops[2012], Draw::Number { num: 3, col: 52, row: 1, color: blue() });
    assert_eq!(g.player, before_player);
    assert_eq!(g.tick, 0);
}

#[test]
fn opponent_turns_down_at_a_wall() {
    let mut g = running_game();
    g.enemy = enemy_at(1, 10, LEFT, 3);
    g.groving();
    assert_eq!(g.enemy, enemy_at(1, 11, DOWN, 3));
    assert_eq!(g.points, 0);
}

#[test]
fn vertical_opponent_turns_left_at_a_wall() {
    let mut g = running_game();
    g.enemy = enemy_at(40, 23, DOWN, 3);
    g.groving();
    assert_eq!(g.enemy, enemy_at(39, 23, LEFT, 3));
}

#[test]
fn opponent_on_a_trail_scores() {
    let mut g = running_game();
    let mut l = Light::new();
    l.x = 49;
    l.y = 12;
    g.light_path.generate(l);
    g.enemy = enemy_at(50, 12, LEFT, 2);
    g.points = 4;
    g.groving();
    assert_eq!(g.points, 5);
    assert_eq!(g.enemy, enemy_at(66, 12, LEFT, 13));
}

#[test]
fn opponent_moves_on_free_cells() {
    let mut g = running_game();
    g.enemy = enemy_at(50, 12, RIGHT, 2);
    g.groving();
    assert_eq!(g.enemy, enemy_at(51, 12, RIGHT, 2));
    assert_eq!(g.points, 0);
}

#[test]
fn r_restarts() {
    let mut g = running_game();
    for _ in 0..3 {
        g.tick();
    }
    g.points = 9;
    g.key(DecodedKey::Unicode('r'));
    assert!(!g.game_start && !g.end_set && g.game_fix);
    assert_eq!(g.player, Player::new());
    assert_eq!(g.enemy, enemy_at(66, 12, LEFT, 13));
    assert_eq!(g.light_path, LightPath::new());
    assert_eq!(g.dark_path, LightPath::new());
    // the score goes back to 0 on the first tick of the next round
    assert_eq!(g.points, 9);
    g.key(DecodedKey::Unicode('p'));
    g.tick();
    assert_eq!(g.points, 0);
    assert!(!g.game_fix);
    assert_eq!(g.player, Player::new());
}

#[test]
fn redo_restarts_round() {
    let mut g = running_game();
    g.tick();
    g.points = 2;
    g.game_fix = true;
    g.end_set = true;
    g.redo();
    assert!(!g.end_set && !g.game_fix);
    assert_eq!(g.points, 0);
    assert_eq!(g.tick, 0);
    assert_eq!(g.player, Player::new());
    assert_eq!(g.enemy, enemy_at(66, 12, LEFT, 13));
}

#[test]
fn trail_blaze_lays_both_trails() {
    let mut g = running_game();
    let ops = g.trail_blaze();
    assert_eq!(ops.len(), 2);
    assert_eq!(g.light.user, g.player);
    assert_eq!(g.dark.user, g.enemy);
    assert_eq!(g.light_path.trail[0].x, 12);
    assert_eq!(g.dark_path.trail[0].x, 67);
    assert_eq!(g.light_path.trail_iter, 1);
}

#[test]
fn player_stays_in_arena_while_playing() {
    let mut g = running_game();
    let keys = [KeyCode::ArrowUp, KeyCode::ArrowLeft, KeyCode::ArrowDown, KeyCode::ArrowRight];
    for t in 0..40 {
        if t % 7 == 3 {
            g.key(DecodedKey::RawKey(keys[(t / 7) % 4]));
        }
        g.tick();
        assert!(g.player.x >= 1 && g.player.x <= 78);
        assert!(g.player.y >= 4 && g.player.y <= 23);
        assert!(g.light_path.check_clear <= TRAIL_LEN);
        assert!(g.dark_path.check_clear <= TRAIL_LEN);
        if g.end_set {
            break;
        }
    }
}

#[test]
fn score_never_drops_within_a_round() {
    let mut g = running_game();
    let mut last = g.points;
    for _ in 0..40 {
        g.tick();
        assert!(g.points >= last);
        last = g.points;
        if g.end_set {
            break;
        }
    }
}

#[test]
fn running_game_can_tick_and_take_keys() {
    let mut g = running_game();
    assert!(g.can_tick());
    for k in [KeyCode::ArrowUp, KeyCode::ArrowDown, KeyCode::ArrowLeft, KeyCode::ArrowRight, KeyCode::Other] {
        assert!(g.can_key(DecodedKey::RawKey(k)));
    }
    assert!(g.can_key(DecodedKey::Unicode('q')));
    g.tick();
    assert!(g.can_tick());
}

#[test]
fn opponent_leaving_the_screen_cannot_tick() {
    let mut g = running_game();
    // below the bottom wall, heading down: its next cell is off the screen
    g.enemy = enemy_at(40, 24, DOWN, 3);
    assert!(!g.can_tick());
    // a game that has not started can always tick
    g.game_start = false;
    assert!(g.can_tick());
}

#[test]
fn opponent_at_left_edge_heading_left_cannot_tick() {
    let mut g = running_game();
    g.enemy = enemy_at(0, 1, LEFT, 3);
    assert!(!g.can_tick());
}

#[test]
fn score_too_large_to_show_cannot_tick() {
    let mut g = running_game();
    g.points = usize::MAX;
    assert!(!g.can_tick());
    g.points = isize::MAX as usize;
    assert!(g.can_tick());
}

#[test]
fn key_off_the_screen_is_refused() {
    let mut g = running_game();
    g.player = player_at(10, 0, RIGHT);
    assert!(!g.can_key(DecodedKey::RawKey(KeyCode::ArrowUp)));
    assert!(g.can_key(DecodedKey::RawKey(KeyCode::ArrowDown)));
}

#[test]
fn overfull_count_is_scanned_up_to_a_match() {
    let mut t = LightPath::new();
    t.trail[2].x = 7;
    t.trail[2].y = 8;
    t.check_clear = 30;
    assert!(player_at(7, 8, RIGHT).is_crashing(t));
}
