//! A light cycle: where it is, where it heads, and how it turns.
use vstd::prelude::*;
use crate::light::{LightPath, TRAIL_LEN};
use crate::screen::{Color, ColorCode, Draw, BUFFER_HEIGHT, BUFFER_WIDTH};
use crate::walls::Walls;

verus! {

/// Heading to the right (growing column).
pub const RIGHT: usize = 0;

/// Heading to the left (shrinking column).
pub const LEFT: usize = 1;

/// Heading down the screen (growing row).
pub const DOWN: usize = 2;

/// Heading up the screen (shrinking row).
pub const UP: usize = 3;

/// A light cycle. `x` is its column, `y` its row, `direction` one of
/// `RIGHT`, `LEFT`, `DOWN`, `UP`; `controlled` is 1 for the player's cycle and 0
/// for the opponent's; `turn_check` counts the ticks until the opponent may
/// turn again.
#[derive(Clone, Copy, Debug, PartialEq, Eq)]
pub struct Player {
    pub x: usize,
    pub y: usize,
    pub direction: usize,
    pub controlled: usize,
    pub turn_check: isize,
}

/// The character that shows a cycle heading in `direction`.
pub open spec fn heading_glyph(direction: usize) -> Option<char> {
    if direction == RIGHT {
        Some('>')
    } else if direction == LEFT {
        Some('<')
    } else if direction == DOWN {
        Some('v')
    } else if direction == UP {
        Some('^')
    } else {
        None
    }
}

impl Player {
    /// The player's cycle at its starting place: a sixth of the way across,
    /// half way down, heading right.
    pub open spec fn start() -> Player {
        Player {
            x: (BUFFER_WIDTH / 6) as usize,
            y: (BUFFER_HEIGHT / 2) as usize,
            direction: RIGHT,
            controlled: 1,
            turn_check: 0,
        }
    }

    /// The cycle back at the starting place, heading right.
    pub open spec fn was_reset(self) -> Player {
        Player {
            x: (BUFFER_WIDTH / 6) as usize,
            y: (BUFFER_HEIGHT / 2) as usize,
            direction: RIGHT,
            ..self
        }
    }

    /// The cycle after a turn down: unless it heads up, it heads down and
    /// moves one row down.
    pub open spec fn turned_down(self) -> Player {
        if self.direction != UP {
            Player { direction: DOWN, y: (self.y + 1) as usize, ..self }
        } else {
            self
        }
    }

    /// The cycle after a turn up: unless it heads down, it heads up and
    /// moves one row up.
    pub open spec fn turned_up(self) -> Player {
        if self.direction != DOWN {
            Player { direction: UP, y: (self.y - 1) as usize, ..self }
        } else {
            self
        }
    }

    /// The cycle after a turn left: unless it heads right, it heads left and
    /// moves one column left.
    pub open spec fn turned_left(self) -> Player {
        if self.direction != RIGHT {
            Player { direction: LEFT, x: (self.x - 1) as usize, ..self }
        } else {
            self
        }
    }

    /// The cycle after a turn right: unless it heads left, it heads right and
    /// moves one column right.
    pub open spec fn turned_right(self) -> Player {
        if self.direction != LEFT {
            Player { direction: RIGHT, x: (self.x + 1) as usize, ..self }
        } else {
            self
        }
    }

    /// The cycle one cell further along its heading.
    pub open spec fn stepped(self) -> Player {
        if self.direction == RIGHT {
            Player { x: (self.x + 1) as usize, ..self }
        } else if self.direction == LEFT {
            Player { x: (self.x - 1) as usize, ..self }
        } else if self.direction == DOWN {
            Player { y: (self.y + 1) as usize, ..self }
        } else if self.direction == UP {
            Player { y: (self.y - 1) as usize, ..self }
        } else {
            self
        }
    }

    /// A step along the heading stays within the machine's integers.
    pub open spec fn can_step(self) -> bool {
        &&& self.direction == RIGHT ==> self.x < usize::MAX
        &&& self.direction == LEFT ==> self.x > 0
        &&& self.direction == DOWN ==> self.y < usize::MAX
        &&& self.direction == UP ==> self.y > 0
    }

    /// The cycle stands on a cell of the screen.
    pub open spec fn on_screen(self) -> bool {
        self.x < BUFFER_WIDTH && self.y < BUFFER_HEIGHT
    }

    /// A turn down stays within the machine's integers.
    pub open spec fn can_turn_down(self) -> bool {
        self.direction != UP ==> self.y < usize::MAX
    }

    /// A turn up stays within the machine's integers.
    pub open spec fn can_turn_up(self) -> bool {
        self.direction != DOWN ==> self.y > 0
    }

    /// A turn left stays within the machine's integers.
    pub open spec fn can_turn_left(self) -> bool {
        self.direction != RIGHT ==> self.x > 0
    }

    /// A turn right stays within the machine's integers.
    pub open spec fn can_turn_right(self) -> bool {
        self.direction != LEFT ==> self.x < usize::MAX
    }

    /// The turn that the opponent makes when its countdown is over, at tick
    /// `tick`: a horizontal cycle turns up on ticks divisible by 3, else down
    /// on even ticks; a vertical one turns left on ticks divisible by 3, else
    /// right on even ticks.
    pub open spec fn stance_turn(self, tick: isize) -> Player {
        if self.direction == RIGHT || self.direction == LEFT {
            if tick % 3 == 0 {
                self.turned_up()
            } else if tick % 2 == 0 {
                self.turned_down()
            } else {
                self
            }
        } else if self.direction == DOWN || self.direction == UP {
            if tick % 3 == 0 {
                self.turned_left()
            } else if tick % 2 == 0 {
                self.turned_right()
            } else {
                self
            }
        } else {
            self
        }
    }

    /// The turn of `stance_turn` stays within the machine's integers.
    pub open spec fn can_stance_turn(self, tick: isize) -> bool {
        if self.direction == RIGHT || self.direction == LEFT {
            if tick % 3 == 0 {
                self.can_turn_up()
            } else if tick % 2 == 0 {
                self.can_turn_down()
            } else {
                true
            }
        } else if self.direction == DOWN || self.direction == UP {
            if tick % 3 == 0 {
                self.can_turn_left()
            } else if tick % 2 == 0 {
                self.can_turn_right()
            } else {
                true
            }
        } else {
            true
        }
    }

    /// The opponent after one tick of its steering: a running countdown goes
    /// down by one; a finished one makes the cycle turn and restarts at 4; a
    /// negative one leaves the cycle as it is.
    pub open spec fn after_stance(self, tick: isize) -> Player {
        if self.turn_check > 0 {
            Player { turn_check: (self.turn_check - 1) as isize, ..self }
        } else if self.turn_check == 0 {
            Player { turn_check: 4, ..self.stance_turn(tick) }
        } else {
            self
        }
    }

    /// The steering of `after_stance` stays within the machine's integers.
    pub open spec fn can_stance(self, tick: isize) -> bool {
        self.turn_check == 0 ==> self.can_stance_turn(tick)
    }

    /// What the cycle's heading shows at its place, in colour `fg` on black.
    pub open spec fn heading_draw(self, fg: Color) -> Option<Draw> {
        match heading_glyph(self.direction) {
            Some(ch) => Some(
                Draw::Char {
                    ch,
                    col: self.x,
                    row: self.y,
                    color: ColorCode { foreground: fg, background: Color::Black },
                },
            ),
            None => None,
        }
    }

    /// The player's cycle at its starting place.
    pub fn new() -> (p: Self)
        ensures
            p == Player::start(),
    {
        Player {
            x: BUFFER_WIDTH / 6,
            y: BUFFER_HEIGHT / 2,
            direction: RIGHT,
            controlled: 1,
            turn_check: 0,
        }
    }

    /// Puts the cycle back at the starting place, heading right.
    pub fn reset(&mut self)
        ensures
            *final(self) == old(self).was_reset(),
    {
        self.x = BUFFER_WIDTH / 6;
        self.y = BUFFER_HEIGHT / 2;
        self.direction = RIGHT;
    }

    /// Whether the cycle stands on a wall.
    pub fn is_colliding(&self, walls: &Walls) -> (b: bool)
        requires
            self.y < BUFFER_HEIGHT,
            self.x < BUFFER_WIDTH,
        ensures
            b == walls.walls[self.y as int][self.x as int],
    {
        walls.occupied(self.y, self.x)
    }

    /// Whether the cycle stands on one of the lights laid so far on `trail`.
    pub fn is_crashing(&self, trail: LightPath) -> (b: bool)
        requires
            trail@.scannable(self.x, self.y),
        ensures
            b == trail@.covers(self.x, self.y),
    {
        let mut i: usize = 0;
        while i < trail.check_clear
            invariant
                trail@.scannable(self.x, self.y),
                i <= trail.check_clear,
                i <= TRAIL_LEN,
                forall|j: int|
                    0 <= j < i ==> !(#[trigger] trail.trail[j].x == self.x && trail.trail[j].y
                        == self.y),
            decreases trail.check_clear - i,
        {
            if i == TRAIL_LEN {
                // the count is beyond the ring, so one of the ring's lights is here
                let ghost j = choose|j: int|
                    0 <= j < TRAIL_LEN && #[trigger] trail@.lights[j].x == self.x
                        && trail@.lights[j].y == self.y;
                assert(trail.trail[j].x == self.x);
            }
            if self.x == trail.trail[i].x && self.y == trail.trail[i].y {
                assert(trail@.lights[i as int].x == self.x);
                return true;
            }
            i += 1;
        }
        return false;
    }

    /// Turns down, unless the cycle heads up.
    pub fn down(&mut self)
        requires
            old(self).can_turn_down(),
        ensures
            *final(self) == old(self).turned_down(),
    {
        if self.direction != UP {
            self.direction = DOWN;
            self.y += 1;
        }
    }

    /// Turns up, unless the cycle heads down.
    pub fn up(&mut self)
        requires
            old(self).can_turn_up(),
        ensures
            *final(self) == old(self).turned_up(),
    {
        if self.direction != DOWN {
            self.direction = UP;
            self.y -= 1;
        }
    }

    /// Turns left, unless the cycle heads right.
    pub fn left(&mut self)
        requires
            old(self).can_turn_left(),
        ensures
            *final(self) == old(self).turned_left(),
    {
        if self.direction != RIGHT {
            self.direction = LEFT;
            self.x -= 1;
        }
    }

    /// Turns right, unless the cycle heads left.
    pub fn right(&mut self)
        requires
            old(self).can_turn_right(),
        ensures
            *final(self) == old(self).turned_right(),
    {
        if self.direction != LEFT {
            self.direction = RIGHT;
            self.x += 1;
        }
    }

    /// Shows the player's cycle: its heading at its place, in light blue.
    pub fn bike_dir(&mut self) -> (op: Option<Draw>)
        ensures
            *final(self) == *old(self),
            op == old(self).heading_draw(Color::LightBlue),
    {
        self.heading(Color::LightBlue)
    }

    /// Shows the opponent's cycle: its heading at its place, in light red.
    pub fn motor_dir(&mut self) -> (op: Option<Draw>)
        ensures
            *final(self) == *old(self),
            op == old(self).heading_draw(Color::LightRed),
    {
        self.heading(Color::LightRed)
    }

    fn heading(&self, fg: Color) -> (op: Option<Draw>)
        ensures
            op == self.heading_draw(fg),
    {
        let ch = if self.direction == RIGHT {
            '>'
        } else if self.direction == LEFT {
            '<'
        } else if self.direction == DOWN {
            'v'
        } else if self.direction == UP {
            '^'
        } else {
            return None;
        };
        Some(Draw::Char { ch, col: self.x, row: self.y, color: ColorCode::new(fg, Color::Black) })
    }

    /// One tick of the opponent's steering (see `after_stance`).
    pub fn travel_stance(&mut self, tick: isize)
        requires
            old(self).can_stance(tick),
        ensures
            *final(self) == old(self).after_stance(tick),
    {
        if self.turn_check > 0 {
            self.turn_check -= 1;
        } else if self.turn_check == 0 {
            if self.direction == RIGHT || self.direction == LEFT {
                if tick % 3 == 0 {
                    self.up();
                } else if tick % 2 == 0 {
                    self.down();
                }
            } else if self.direction == DOWN || self.direction == UP {
                if tick % 3 == 0 {
                    self.left();
                } else if tick % 2 == 0 {
                    self.right();
                }
            }
            self.turn_check = 4;
        }
    }
}

} // verus!
