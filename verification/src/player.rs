//! The player sprite: vertical motion under gravity, the flap impulse, and
//! the cyclic animation frame.
//!
//! Every velocity the game ever produces is a whole multiple of half a cell
//! per tick (gravity adds one half, the cap is two halves, a flap sets minus
//! eight halves), so the velocity is held exactly as a count of half-cells
//! per tick instead of a fractional number.

use vstd::prelude::*;

verus! {

/// The player-controlled sprite.
#[derive(Clone, Copy, Debug, PartialEq, Eq, Structural)]
pub struct Player {
    /// Horizontal scroll distance traveled; advances by one per physics tick.
    pub x: i32,
    /// Vertical position in cells, growing downward; never negative.
    pub y: i32,
    /// Vertical velocity in half-cells per tick: 2 is the terminal fall
    /// speed of one cell per tick, -8 is the upward flap impulse of four
    /// cells per tick.
    pub velocity_half: i32,
    /// Index into the six-frame animation cycle.
    pub current_frame: usize,
}

/// Velocity after one tick of gravity: half a cell per tick faster, until
/// the terminal fall speed of one cell per tick is reached.
pub open spec fn next_velocity_half(v: int) -> int {
    if v < 2 {
        v + 1
    } else {
        v
    }
}

/// Whole cells covered in one tick at `v` half-cells per tick: half of `v`,
/// rounded toward zero.
pub open spec fn half_toward_zero(v: int) -> int {
    if v >= 0 {
        v / 2
    } else {
        -((-v) / 2)
    }
}

/// Clamp a vertical position to the top of the play field.
pub open spec fn clamped_low(y: int) -> int {
    if y < 0 {
        0
    } else {
        y
    }
}

/// The player after one physics tick: gravity applied to the velocity first,
/// then the position moved by the new velocity and clamped to the field's
/// top, the scroll position one further, the animation cycle one further.
pub open spec fn player_stepped(p: Player) -> Player {
    let v = next_velocity_half(p.velocity_half as int);
    Player {
        x: (p.x + 1) as i32,
        y: clamped_low(p.y + half_toward_zero(v)) as i32,
        velocity_half: v as i32,
        current_frame: ((p.current_frame + 1) % 6) as usize,
    }
}

/// The velocity after `n` ticks of gravity with no flap in between.
pub open spec fn velocity_after_ticks(v0: int, n: nat) -> int
    decreases n,
{
    if n == 0 {
        v0
    } else {
        next_velocity_half(velocity_after_ticks(v0, (n - 1) as nat))
    }
}

/// Gravity law: from rest, the fall speed after `n` ticks is `n` half-cells
/// per tick, capped at the terminal two half-cells from the second tick on.
pub proof fn lemma_gravity_velocity(n: nat)
    ensures
        velocity_after_ticks(0, n) == if n < 2 { n as int } else { 2int },
    decreases n,
{
    if n > 0 {
        lemma_gravity_velocity((n - 1) as nat);
    }
}

impl Player {
    /// The player's invariant: never above the field's top, velocity between
    /// the flap impulse and the terminal fall speed, animation index inside
    /// the six-frame cycle.
    pub open spec fn wf(self) -> bool {
        &&& 0 <= self.y
        &&& -8 <= self.velocity_half <= 2
        &&& self.current_frame < 6
    }

    /// A player at rest at the given position, at the start of the
    /// animation cycle.
    pub fn new(x: i32, y: i32) -> (p: Player)
        requires
            0 <= y,
        ensures
            p == (Player { x, y, velocity_half: 0, current_frame: 0 }),
            p.wf(),
    {
        Player { x, y, velocity_half: 0, current_frame: 0 }
    }

    /// One physics tick: accelerate downward unless at terminal speed, move
    /// one cell right and by the new velocity vertically, clamp to the top
    /// of the field, advance the animation cycle.
    pub fn gravity_and_move(&mut self)
        requires
            old(self).wf(),
            old(self).x < i32::MAX,
            old(self).y < i32::MAX,
        ensures
            *final(self) == player_stepped(*old(self)),
            final(self).y >= 0,
            final(self).wf(),
    {
        if self.velocity_half < 2 {
            self.velocity_half = self.velocity_half + 1;
        }
        self.x = self.x + 1;
        let step: i32 = if self.velocity_half >= 0 {
            self.velocity_half / 2
        } else {
            -((-self.velocity_half) / 2)
        };
        self.y = self.y + step;
        if self.y < 0 {
            self.y = 0;
        }
        self.current_frame = (self.current_frame + 1) % 6;
    }

    /// A flap: the velocity becomes the fixed upward impulse of four cells
    /// per tick, whatever it was before; nothing else changes.
    pub fn flap(&mut self)
        ensures
            *final(self) == (Player { velocity_half: -8i32, ..*old(self) }),
    {
        self.velocity_half = -8;
    }

    /// The sprite glyph of the current animation frame, from the fixed
    /// six-frame cycle.
    pub fn frame_glyph(&self) -> (g: u16)
        ensures
            g == spec_frame_glyph(self.current_frame as int),
    {
        match self.current_frame % 6 {
            0 => 64,
            1 => 1,
            2 => 2,
            3 => 3,
            4 => 2,
            _ => 1,
        }
    }
}

/// The glyph shown at a given point of the animation cycle.
pub open spec fn spec_frame_glyph(i: int) -> u16 {
    let k = i % 6;
    if k == 0 {
        64
    } else if k == 1 {
        1
    } else if k == 2 {
        2
    } else if k == 3 {
        3
    } else if k == 4 {
        2
    } else {
        1
    }
}

} // verus!
