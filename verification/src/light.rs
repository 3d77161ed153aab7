//! The light trails that the cycles leave behind them.
use vstd::prelude::*;
use crate::player::{Player, DOWN, LEFT, RIGHT, UP};
use crate::screen::{op_seq, Color, ColorCode, Draw};

verus! {

/// How many lights a trail keeps.
pub const TRAIL_LEN: usize = 25;

/// One light of a trail: the place it shows, the axis its cycle moved along
/// when it was laid (0 horizontal, 1 vertical) and the cycle that laid it.
#[derive(Clone, Copy, Debug, PartialEq, Eq)]
pub struct Light {
    pub x: usize,
    pub y: usize,
    pub axis: usize,
    pub user: Player,
}

/// The colour of the trail of a cycle: light blue for the player's, light
/// red for the opponent's.
pub open spec fn trail_color(controlled: usize) -> Color {
    if controlled == 1 {
        Color::LightBlue
    } else {
        Color::LightRed
    }
}

impl Light {
    /// A light at the corner, laid by a still cycle at the corner.
    pub open spec fn blank() -> Light {
        Light {
            x: 0,
            y: 0,
            axis: 0,
            user: Player { x: 0, y: 0, direction: 0, controlled: 0, turn_check: 0 },
        }
    }

    /// The light placed at its cycle's place, with the axis of its heading.
    pub open spec fn set_up(self) -> Light {
        Light {
            x: self.user.x,
            y: self.user.y,
            axis: if self.user.direction == DOWN || self.user.direction == UP {
                1
            } else if self.user.direction == RIGHT || self.user.direction == LEFT {
                0
            } else {
                self.axis
            },
            user: self.user,
        }
    }

    /// The light is shown: its cycle is one of the two, and its axis is known.
    pub open spec fn shown(self) -> bool {
        (self.user.controlled == 1 || self.user.controlled == 0) && (self.axis == 0 || self.axis
            == 1)
    }

    /// The light moved to the cell behind its cycle, along the light's axis.
    pub open spec fn placed(self) -> Light {
        if !self.shown() {
            self
        } else if self.axis == 0 {
            Light {
                x: if self.user.direction == RIGHT {
                    (self.user.x - 1) as usize
                } else if self.user.direction == LEFT {
                    (self.user.x + 1) as usize
                } else {
                    self.x
                },
                y: self.user.y,
                ..self
            }
        } else {
            Light {
                x: self.user.x,
                y: if self.user.direction == DOWN {
                    (self.user.y - 1) as usize
                } else if self.user.direction == UP {
                    (self.user.y + 1) as usize
                } else {
                    self.y
                },
                ..self
            }
        }
    }

    /// Moving the light behind its cycle stays within the machine's integers.
    pub open spec fn can_draw(self) -> bool {
        self.shown() ==> if self.axis == 0 {
            &&& self.user.direction == RIGHT ==> self.user.x > 0
            &&& self.user.direction == LEFT ==> self.user.x < usize::MAX
        } else {
            &&& self.user.direction == DOWN ==> self.user.y > 0
            &&& self.user.direction == UP ==> self.user.y < usize::MAX
        }
    }

    /// What drawing the light shows: a `-` for a horizontal light and a `|`
    /// for a vertical one, at its new place, in its cycle's colour.
    pub open spec fn draw_op(self) -> Option<Draw> {
        if self.shown() {
            Some(
                Draw::Char {
                    ch: if self.axis == 0 { '-' } else { '|' },
                    col: self.placed().x,
                    row: self.placed().y,
                    color: ColorCode {
                        foreground: trail_color(self.user.controlled),
                        background: Color::Black,
                    },
                },
            )
        } else {
            None
        }
    }

    pub fn new() -> (l: Self)
        ensures
            l == Light::blank(),
    {
        Light {
            x: 0,
            y: 0,
            axis: 0,
            user: Player { x: 0, y: 0, direction: 0, controlled: 0, turn_check: 0 },
        }
    }

    /// Puts the light at its cycle's place, on the axis of its heading.
    pub fn setup(&mut self)
        ensures
            *final(self) == old(self).set_up(),
    {
        self.x = self.user.x;
        self.y = self.user.y;
        if self.user.direction == DOWN || self.user.direction == UP {
            self.axis = 1;
        } else if self.user.direction == RIGHT || self.user.direction == LEFT {
            self.axis = 0;
        }
    }

    /// Moves the light behind its cycle and shows it there.
    pub fn draw(&mut self) -> (op: Option<Draw>)
        requires
            old(self).can_draw(),
        ensures
            *final(self) == old(self).placed(),
            op == old(self).draw_op(),
    {
        let fg = if self.user.controlled == 1 {
            Color::LightBlue
        } else if self.user.controlled == 0 {
            Color::LightRed
        } else {
            return None;
        };
        if self.axis == 0 {
            self.y = self.user.y;
            if self.user.direction == RIGHT {
                self.x = self.user.x - 1;
            } else if self.user.direction == LEFT {
                self.x = self.user.x + 1;
            }
            Some(
                Draw::Char {
                    ch: '-',
                    col: self.x,
                    row: self.user.y,
                    color: ColorCode::new(fg, Color::Black),
                },
            )
        } else if self.axis == 1 {
            self.x = self.user.x;
            if self.user.direction == DOWN {
                self.y = self.user.y - 1;
            } else if self.user.direction == UP {
                self.y = self.user.y + 1;
            }
            Some(
                Draw::Char {
                    ch: '|',
                    col: self.user.x,
                    row: self.y,
                    color: ColorCode::new(fg, Color::Black),
                },
            )
        } else {
            None
        }
    }
}

/// The lights `s` with the first `n` moved behind their cycles.
pub open spec fn placed_lights(s: Seq<Light>, n: int) -> Seq<Light> {
    Seq::new(s.len(), |i: int| if i < n { s[i].placed() } else { s[i] })
}

/// What drawing the first `n` lights of `s` shows, in order.
pub open spec fn lights_draws(s: Seq<Light>, n: int) -> Seq<Draw>
    decreases n,
{
    if n <= 0 {
        Seq::empty()
    } else {
        lights_draws(s, n - 1) + op_seq(s[n - 1].draw_op())
    }
}

/// What a trail holds, as the rules read it: its lights, the slot of the last
/// light laid and how many lights have been laid.
pub struct TrailView {
    pub lights: Seq<Light>,
    pub last: usize,
    pub count: usize,
}

impl TrailView {
    /// The count of lights laid is within the ring.
    pub open spec fn wf(self) -> bool {
        self.count <= TRAIL_LEN
    }

    /// Looking through the lights laid so far for one on column `x`, row `y`
    /// stays within the ring: the count is within it, or one of the ring's
    /// lights is there.
    pub open spec fn scannable(self, x: usize, y: usize) -> bool {
        ||| self.wf()
        ||| exists|i: int|
            0 <= i < TRAIL_LEN && #[trigger] self.lights[i].x == x && self.lights[i].y == y
    }

    /// One of the lights laid so far shows on column `x`, row `y`.
    pub open spec fn covers(self, x: usize, y: usize) -> bool {
        exists|i: int|
            0 <= i < self.count && #[trigger] self.lights[i].x == x && self.lights[i].y == y
    }

    /// The slot that the next light goes into.
    pub open spec fn next_slot(self) -> int {
        if self.last >= TRAIL_LEN {
            0
        } else {
            self.last as int
        }
    }

    /// The count of lights laid after one more.
    pub open spec fn grown(self) -> int {
        if self.count < TRAIL_LEN {
            self.count + 1
        } else {
            self.count as int
        }
    }

    /// The trail after laying `light` into the next slot.
    pub open spec fn laid(self, light: Light) -> TrailView {
        TrailView {
            lights: self.lights.update(self.next_slot(), light),
            last: self.next_slot() as usize,
            count: self.grown() as usize,
        }
    }

    /// The trail with the slot of the last light moved on by one.
    pub open spec fn advanced(self) -> TrailView {
        TrailView { last: (self.last + 1) as usize, ..self }
    }

    /// Every light laid so far can be drawn.
    pub open spec fn can_draw(self) -> bool {
        &&& self.wf()
        &&& forall|i: int| 0 <= i < self.count ==> #[trigger] self.lights[i].can_draw()
    }

    /// The trail with every light laid so far moved behind its cycle.
    pub open spec fn placed(self) -> TrailView {
        TrailView { lights: placed_lights(self.lights, self.count as int), ..self }
    }

    /// What drawing the lights laid so far shows, in order.
    pub open spec fn draws(self) -> Seq<Draw> {
        lights_draws(self.lights, self.count as int)
    }
}

/// A trail: a ring of `TRAIL_LEN` lights, the slot of the last light laid
/// (`trail_iter`) and how many lights have been laid, up to `TRAIL_LEN`
/// (`check_clear`).
#[derive(Clone, Copy, Debug, PartialEq, Eq)]
pub struct LightPath {
    pub trail: [Light; TRAIL_LEN],
    pub trail_iter: usize,
    pub check_clear: usize,
}

impl View for LightPath {
    type V = TrailView;

    open spec fn view(&self) -> TrailView {
        TrailView { lights: self.trail@, last: self.trail_iter, count: self.check_clear }
    }
}

impl LightPath {
    /// An empty trail.
    pub open spec fn empty() -> LightPath {
        LightPath {
            trail: vstd::array::spec_array_fill_for_copy_type(Light::blank()),
            trail_iter: 0,
            check_clear: 0,
        }
    }

    /// An empty trail.
    pub fn new() -> (p: Self)
        ensures
            p == LightPath::empty(),
            p@.lights.len() == TRAIL_LEN,
            forall|i: int| 0 <= i < TRAIL_LEN ==> #[trigger] p.trail[i] == Light::blank(),
    {
        LightPath { trail: [Light::new(); TRAIL_LEN], trail_iter: 0, check_clear: 0 }
    }

    /// Lays `light` into the next slot of the ring, going back to the first
    /// slot after the last; counts it, up to `TRAIL_LEN`.
    pub fn generate(&mut self, light: Light)
        ensures
            final(self)@ == old(self)@.laid(light),
    {
        if self.trail_iter >= TRAIL_LEN {
            self.trail_iter = 0;
        }
        self.trail[self.trail_iter] = light;
        if self.check_clear < TRAIL_LEN {
            self.check_clear += 1;
        }
    }

    /// Moves every light laid so far behind its cycle and shows it there.
    pub fn draw(&mut self) -> (ops: Vec<Draw>)
        requires
            old(self)@.can_draw(),
        ensures
            final(self)@ == old(self)@.placed(),
            ops@ == old(self)@.draws(),
    {
        let ghost start = self.trail@;
        let mut ops: Vec<Draw> = Vec::new();
        let mut i: usize = 0;
        while i < self.check_clear
            invariant
                self.check_clear == old(self).check_clear,
                self.trail_iter == old(self).trail_iter,
                start == old(self).trail@,
                old(self)@.can_draw(),
                i <= self.check_clear,
                self.trail@ == placed_lights(start, i as int),
                ops@ == lights_draws(start, i as int),
            decreases self.check_clear - i,
        {
            let mut light = self.trail[i];
            assert(light == start[i as int]);
            assert(old(self)@.lights[i as int].can_draw());
            let op = light.draw();
            self.trail[i] = light;
            match op {
                Some(op) => ops.push(op),
                None => {},
            }
            assert(self.trail@ =~= placed_lights(start, i + 1));
            i += 1;
        }
        ops
    }
}

} // verus!
