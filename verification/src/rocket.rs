//! The player's rocket: velocity integration, turning and thrust.

use vstd::prelude::*;

verus! {

use crate::geom::{div_t, div_trunc, iabs, lemma_div_t_bound, Vec2i};

/// Positions and velocities stay within this many thousandths of a unit.
pub const ROCKET_LIMIT: i64 = 1_000_000_000_000_000;

/// A heading vector handed to `thrust` is a unit vector in thousandths.
pub const HEADING_ONE: i64 = 1_000;

/// A frame never advances time by more than this many milliseconds.
pub const TICK_LIMIT: i64 = 100_000;

/// Turn rate, in milliradians per millisecond times this factor.
pub const TURN_RATE: i64 = 2;

/// Thrust, in units per second gained per second.
pub const THRUST_RATE: i64 = 3;

/// The player's ship: a position and velocity in thousandths of a world
/// unit, and a heading in milliradians.
#[derive(Clone, Copy, PartialEq, Eq, Structural, Debug)]
pub struct Rocket {
    pub pos: Vec2i,
    pub vel: Vec2i,
    pub rotation: i64,
}

impl Rocket {
    /// Bounds under which one frame of flight cannot overflow.
    pub open spec fn wf(self) -> bool {
        &&& iabs(self.pos.x as int) <= ROCKET_LIMIT
        &&& iabs(self.pos.y as int) <= ROCKET_LIMIT
        &&& iabs(self.vel.x as int) <= ROCKET_LIMIT
        &&& iabs(self.vel.y as int) <= ROCKET_LIMIT
        &&& iabs(self.rotation as int) <= ROCKET_LIMIT
    }

    pub fn new(pos: Vec2i, vel: Vec2i, rotation: i64) -> (r: Rocket)
        ensures
            r.pos == pos,
            r.vel == vel,
            r.rotation == rotation,
    {
        Rocket { pos, vel, rotation }
    }

    /// One frame of drift: the velocity is added to the position once.
    pub fn coast(&mut self)
        requires
            old(self).wf(),
        ensures
            final(self).pos.x == old(self).pos.x + old(self).vel.x,
            final(self).pos.y == old(self).pos.y + old(self).vel.y,
            final(self).vel == old(self).vel,
            final(self).rotation == old(self).rotation,
    {
        self.pos.x = self.pos.x + self.vel.x;
        self.pos.y = self.pos.y + self.vel.y;
    }

    /// Turn for `delta` milliseconds: clockwise raises the heading,
    /// counter-clockwise lowers it.
    pub fn turn(&mut self, delta: i64, clockwise: bool)
        requires
            old(self).wf(),
            0 <= delta <= TICK_LIMIT,
        ensures
            clockwise ==> final(self).rotation == old(self).rotation + TURN_RATE * delta,
            !clockwise ==> final(self).rotation == old(self).rotation - TURN_RATE * delta,
            final(self).pos == old(self).pos,
            final(self).vel == old(self).vel,
    {
        if clockwise {
            self.rotation = self.rotation + TURN_RATE * delta;
        } else {
            self.rotation = self.rotation - TURN_RATE * delta;
        }
    }

    /// Burn the engine for `delta` milliseconds along the given unit
    /// heading: forward accelerates along it, backward against it.
    pub fn thrust(&mut self, heading: Vec2i, delta: i64, forward: bool)
        requires
            old(self).wf(),
            iabs(heading.x as int) <= HEADING_ONE,
            iabs(heading.y as int) <= HEADING_ONE,
            0 <= delta <= TICK_LIMIT,
        ensures
            forward ==> final(self).vel.x == old(self).vel.x + div_t(
                heading.x * THRUST_RATE * delta,
                1000,
            ),
            forward ==> final(self).vel.y == old(self).vel.y + div_t(
                heading.y * THRUST_RATE * delta,
                1000,
            ),
            !forward ==> final(self).vel.x == old(self).vel.x - div_t(
                heading.x * THRUST_RATE * delta,
                1000,
            ),
            !forward ==> final(self).vel.y == old(self).vel.y - div_t(
                heading.y * THRUST_RATE * delta,
                1000,
            ),
            final(self).pos == old(self).pos,
            final(self).rotation == old(self).rotation,
    {
        proof {
            assert(iabs(heading.x * THRUST_RATE * delta) <= 300_000_000)
                by (nonlinear_arith)
                requires
                    iabs(heading.x as int) <= HEADING_ONE,
                    0 <= delta <= TICK_LIMIT,
                    THRUST_RATE == 3,
                    HEADING_ONE == 1_000,
                    TICK_LIMIT == 100_000,
            ;
            assert(iabs(heading.y * THRUST_RATE * delta) <= 300_000_000)
                by (nonlinear_arith)
                requires
                    iabs(heading.y as int) <= HEADING_ONE,
                    0 <= delta <= TICK_LIMIT,
                    THRUST_RATE == 3,
                    HEADING_ONE == 1_000,
                    TICK_LIMIT == 100_000,
            ;
            lemma_div_t_bound(heading.x * THRUST_RATE * delta, 1000);
            lemma_div_t_bound(heading.y * THRUST_RATE * delta, 1000);
        }
        let ax = div_trunc(heading.x * THRUST_RATE * delta, 1000);
        let ay = div_trunc(heading.y * THRUST_RATE * delta, 1000);
        if forward {
            self.vel.x = self.vel.x + ax;
            self.vel.y = self.vel.y + ay;
        } else {
            self.vel.x = self.vel.x - ax;
            self.vel.y = self.vel.y - ay;
        }
    }
}

} // verus!
