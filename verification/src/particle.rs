//! Smoke and star particles: spawning, Euler integration, the bounce off
//! the ground line, and removal of expired particles.

use vstd::prelude::*;

verus! {

use crate::geom::{div_t, iabs, Vec2i};
use crate::geom::div_trunc;
use crate::rng::gen_range_u32;

/// Positions stay within this many thousandths of a unit for one step.
pub const POS_LIMIT: i64 = 1_000_000_000_000;

/// Velocities stay within this many thousandths of a unit per second.
pub const VEL_LIMIT: i64 = 1_000_000_000;

/// Spin and lifetime bounds, in millidegrees and milliseconds.
pub const ROT_LIMIT: i64 = 1_000_000_000_000_000;

pub const TIME_LIMIT: i64 = 1_000_000_000;

/// A frame never advances time by more than this many milliseconds.
pub const DELTA_LIMIT: i64 = 100_000;

/// Particles spin at this many millidegrees per millisecond.
pub const SPIN_RATE: i64 = 100;

/// A particle that touched the ground disappears within this many
/// milliseconds.
pub const BOUNCE_TIME: i64 = 50;

/// Size and line thickness of a smoke particle, in thousandths of a unit.
pub const SMOKE_SIZE: i64 = 5_000;

pub const SMOKE_THICKNESS: i64 = 2_000;

/// Spawn-time ranges: rotation in millidegrees, lifetimes in milliseconds.
pub const FULL_TURN_MDEG: u32 = 360_000;

pub const SMOKE_TIME_LOW: u32 = 300;

pub const SMOKE_TIME_HIGH: u32 = 400;

pub const STAR_TIME_LOW: u32 = 1_000;

pub const STAR_TIME_HIGH: u32 = 3_000;

/// One piece of the particle system. Positions and sizes are in
/// thousandths of a world unit, the rotation in millidegrees, the
/// remaining lifetime in milliseconds.
#[derive(Clone, Copy, PartialEq, Eq, Structural, Debug)]
pub struct Particle {
    pub pos: Vec2i,
    pub vel: Vec2i,
    pub rotation: i64,
    pub time_left: i64,
    pub size: i64,
    pub thickness: i64,
}

impl Particle {
    /// Bounds under which one integration step cannot overflow.
    pub open spec fn wf(self) -> bool {
        &&& iabs(self.pos.x as int) <= POS_LIMIT
        &&& iabs(self.pos.y as int) <= POS_LIMIT
        &&& iabs(self.vel.x as int) <= VEL_LIMIT
        &&& iabs(self.vel.y as int) <= VEL_LIMIT
        &&& iabs(self.rotation as int) <= ROT_LIMIT
        &&& iabs(self.time_left as int) <= TIME_LIMIT
    }

    /// A smoke puff at the given position and velocity, with a random
    /// heading and a short random lifetime.
    pub fn random_smoke(pos: Vec2i, vel: Vec2i) -> (p: Particle)
        ensures
            p.pos == pos,
            p.vel == vel,
            0 <= p.rotation < FULL_TURN_MDEG,
            SMOKE_TIME_LOW <= p.time_left < SMOKE_TIME_HIGH,
            p.size == SMOKE_SIZE,
            p.thickness == SMOKE_THICKNESS,
    {
        let rotation = gen_range_u32(0, FULL_TURN_MDEG);
        let time_left = gen_range_u32(SMOKE_TIME_LOW, SMOKE_TIME_HIGH);
        Particle {
            pos,
            vel,
            rotation: rotation as i64,
            time_left: time_left as i64,
            size: SMOKE_SIZE,
            thickness: SMOKE_THICKNESS,
        }
    }

    /// A motionless background star whose stroke follows the current line
    /// thickness, with a random heading and lifetime.
    pub fn star(pos: Vec2i, line_thickness: i64) -> (p: Particle)
        requires
            0 <= line_thickness <= VEL_LIMIT,
        ensures
            p.pos == pos,
            p.vel == (Vec2i { x: 0, y: 0 }),
            0 <= p.rotation < FULL_TURN_MDEG,
            STAR_TIME_LOW <= p.time_left < STAR_TIME_HIGH,
            p.thickness == line_thickness,
            p.size == 2 * line_thickness,
    {
        let rotation = gen_range_u32(0, FULL_TURN_MDEG);
        let time_left = gen_range_u32(STAR_TIME_LOW, STAR_TIME_HIGH);
        Particle {
            pos,
            vel: Vec2i { x: 0, y: 0 },
            rotation: rotation as i64,
            time_left: time_left as i64,
            size: line_thickness * 2,
            thickness: line_thickness,
        }
    }
}

/// One integration step of length `delta` milliseconds: spin, drift,
/// bounce off the ground line y = 0 (flipping the vertical velocity and
/// cutting the lifetime short), then age.
pub open spec fn step_spec(p: Particle, delta: int) -> Particle {
    let rotation = p.rotation + delta * SPIN_RATE;
    let x = p.pos.x + div_t(p.vel.x * delta, 1000);
    let y = p.pos.y + div_t(p.vel.y * delta, 1000);
    let grounded = y <= 0;
    let vel_y = if grounded {
        -p.vel.y
    } else {
        p.vel.y as int
    };
    let capped = if grounded && p.time_left > BOUNCE_TIME {
        BOUNCE_TIME as int
    } else {
        p.time_left as int
    };
    Particle {
        pos: Vec2i { x: x as i64, y: y as i64 },
        vel: Vec2i { x: p.vel.x, y: vel_y as i64 },
        rotation: rotation as i64,
        time_left: (capped - delta) as i64,
        size: p.size,
        thickness: p.thickness,
    }
}

impl Particle {
    /// Advance this particle by `delta` milliseconds.
    pub fn step(&mut self, delta: i64)
        requires
            old(self).wf(),
            0 <= delta <= DELTA_LIMIT,
        ensures
            *final(self) == step_spec(*old(self), delta as int),
    {
        proof {
            assert(iabs(self.vel.x as int * delta) <= VEL_LIMIT * DELTA_LIMIT)
                by (nonlinear_arith)
                requires
                    iabs(self.vel.x as int) <= VEL_LIMIT,
                    0 <= delta <= DELTA_LIMIT,
            ;
            assert(iabs(self.vel.y as int * delta) <= VEL_LIMIT * DELTA_LIMIT)
                by (nonlinear_arith)
                requires
                    iabs(self.vel.y as int) <= VEL_LIMIT,
                    0 <= delta <= DELTA_LIMIT,
            ;
            crate::geom::lemma_div_t_bound(self.vel.x as int * delta, 1000);
            crate::geom::lemma_div_t_bound(self.vel.y as int * delta, 1000);
        }
        self.rotation = self.rotation + delta * SPIN_RATE;
        let dx = div_trunc(self.vel.x * delta, 1000);
        let dy = div_trunc(self.vel.y * delta, 1000);
        self.pos.x = self.pos.x + dx;
        self.pos.y = self.pos.y + dy;
        if self.pos.y <= 0 {
            self.vel.y = -self.vel.y;
            if self.time_left > BOUNCE_TIME {
                self.time_left = BOUNCE_TIME;
            }
        }
        self.time_left = self.time_left - delta;
    }
}

/// A particle survives a step while its lifetime is still positive.
pub open spec fn alive(p: Particle) -> bool {
    p.time_left > 0
}

/// Advance every particle by `delta` milliseconds and drop the expired
/// ones: afterwards the vector holds exactly the stepped particles that
/// are still alive, in their old order.
pub fn step_all(particles: &mut Vec<Particle>, delta: i64)
    requires
        forall|i: int| 0 <= i < old(particles)@.len() ==> #[trigger] old(particles)@[i].wf(),
        0 <= delta <= DELTA_LIMIT,
    ensures
        final(particles)@ == old(particles)@.map_values(|p: Particle| step_spec(p, delta as int))
            .filter(|p: Particle| alive(p)),
        forall|i: int| 0 <= i < final(particles)@.len() ==> alive(#[trigger] final(particles)@[i]),
{
    broadcast use vstd::seq_lib::group_filter_ensures;

    let ghost stepped = particles@.map_values(|p: Particle| step_spec(p, delta as int));
    let ghost keep = |p: Particle| alive(p);
    let mut out: Vec<Particle> = Vec::new();
    let n = particles.len();
    let mut i: usize = 0;
    while i < n
        invariant
            i <= n,
            n == particles@.len(),
            particles@ == old(particles)@,
            stepped == particles@.map_values(|p: Particle| step_spec(p, delta as int)),
            keep == (|p: Particle| alive(p)),
            forall|j: int| 0 <= j < particles@.len() ==> #[trigger] particles@[j].wf(),
            0 <= delta <= DELTA_LIMIT,
            out@ == stepped.take(i as int).filter(keep),
        decreases n - i,
    {
        let mut p = particles[i];
        p.step(delta);
        proof {
            reveal(Seq::filter);
            assert(stepped.take(i + 1).drop_last() =~= stepped.take(i as int));
            assert(stepped.take(i + 1).last() == step_spec(particles@[i as int], delta as int));
        }
        if p.time_left > 0 {
            out.push(p);
        }
        i += 1;
    }
    proof {
        assert(stepped.take(n as int) =~= stepped);
    }
    *particles = out;
}

} // verus!
