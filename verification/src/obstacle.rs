//! The gap obstacle: a single column with a passable vertical band whose
//! center is drawn at random and whose size narrows as the score grows.

use vstd::prelude::*;
use crate::player::Player;

verus! {

/// A column obstacle with a passable gap.
#[derive(Clone, Copy, Debug, PartialEq, Eq, Structural)]
pub struct Obstacle {
    /// World-space column the obstacle stands in; the player approaches it
    /// as its own `x` grows.
    pub x: i32,
    /// Vertical center of the passable gap, drawn from [10, 40).
    pub gap_y: i32,
    /// Height of the passable gap; shrinks with the score, floored at 2.
    pub gap_size: i32,
}

/// The gap size generated at a given score: twenty cells minus the score,
/// never below the floor of two that keeps the gap traversable.
pub open spec fn gap_size_for(score: int) -> int {
    if 20 - score < 2 {
        2
    } else {
        20 - score
    }
}

/// Difficulty law: the gap never narrows below two cells, and from a score
/// of eighteen on it sits exactly at that floor.
pub proof fn lemma_gap_size_floor(score: int)
    ensures
        gap_size_for(score) >= 2,
        score >= 18 ==> gap_size_for(score) == 2,
{
}

/// Collision rule: the player hits the obstacle exactly when it stands in
/// the obstacle's column and its vertical position lies strictly outside
/// the gap band `[gap_y - gap_size / 2, gap_y + gap_size / 2]`.
pub open spec fn spec_hit(o: Obstacle, p: Player) -> bool {
    &&& p.x == o.x
    &&& (p.y < o.gap_y - o.gap_size / 2 || p.y > o.gap_y + o.gap_size / 2)
}

/// Relies on bracket_lib's `RandomNumberGenerator`: `new` seeds a fresh
/// xorshift generator and `range(low, high)` draws from the half-open
/// interval `[low, high)` (it calls rand's `gen_range(low..high)`, which
/// panics on an empty interval, hence the precondition).
#[verifier::external_body]
fn random_in_range(low: i32, high: i32) -> (r: i32)
    requires
        low < high,
    ensures
        low <= r < high,
{
    let mut rng = bracket_lib::prelude::RandomNumberGenerator::new();
    rng.range(low, high)
}

impl Obstacle {
    /// The obstacle's invariant: the gap center inside the band it is drawn
    /// from, the gap size between its floor and the size a score of zero
    /// generates.
    pub open spec fn wf(self) -> bool {
        &&& 10 <= self.gap_y < 40
        &&& 2 <= self.gap_size <= 20
    }

    /// A fresh obstacle in the given column: the gap center drawn at random
    /// from [10, 40), the gap size narrowed by the score down to its floor.
    pub fn new(x: i32, score: i32) -> (o: Obstacle)
        requires
            0 <= score,
        ensures
            o.x == x,
            10 <= o.gap_y < 40,
            o.gap_size == gap_size_for(score as int),
            o.wf(),
    {
        Obstacle {
            x,
            gap_y: random_in_range(10, 40),
            gap_size: if 20 - score < 2 { 2 } else { 20 - score },
        }
    }

    /// Topmost cell of the passable gap band.
    pub fn gap_top(&self) -> (t: i32)
        requires
            self.wf(),
        ensures
            t == self.gap_y - self.gap_size / 2,
    {
        self.gap_y - self.gap_size / 2
    }

    /// Bottommost cell of the passable gap band.
    pub fn gap_bottom(&self) -> (b: i32)
        requires
            self.wf(),
        ensures
            b == self.gap_y + self.gap_size / 2,
    {
        self.gap_y + self.gap_size / 2
    }

    /// Whether the player collides with this obstacle: true exactly when the
    /// player stands in the obstacle's column with its vertical position
    /// strictly outside the gap band.
    pub fn hit_obstacle(&self, player: &Player) -> (hit: bool)
        requires
            self.wf(),
        ensures
            hit == spec_hit(*self, *player),
    {
        let does_x_match: bool = player.x == self.x;
        let player_above_gap: bool = player.y < self.gap_top();
        let player_below_gap: bool = player.y > self.gap_bottom();
        does_x_match && (player_above_gap || player_below_gap)
    }
}

} // verus!
