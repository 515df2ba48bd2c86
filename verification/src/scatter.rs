//! Planets and the procedural scattering of houses and trees on their
//! circular surfaces. Surface angles are in milliradians; building sizes
//! in whole world units.

use vstd::prelude::*;

verus! {

use crate::geom::Vec2i;
use crate::rng::gen_range_u32;

/// A full turn, in milliradians.
pub const TAU_MRAD: u32 = 6_283;

/// A quarter turn, in milliradians: the top of the planet, where the
/// rocket sits.
pub const QUARTER_TURN_MRAD: u32 = 1_571;

/// Half-width of the strip around the quarter turn that is kept free of
/// scenery.
pub const GAP_MRAD: u32 = 10;

/// How many times each kind of scenery is attempted.
pub const HOUSE_ATTEMPTS: u32 = 1_500;

pub const TREE_ATTEMPTS: u32 = 500;

/// Spawn ranges for houses, in world units.
pub const HOUSE_TALL_LOW: u32 = 20;

pub const HOUSE_TALL_HIGH: u32 = 120;

pub const HOUSE_LONG_LOW: u32 = 20;

pub const HOUSE_LONG_HIGH: u32 = 320;

/// The rare skyscraper bonus, added when five coin flips all land on one.
pub const BONUS_TALL_LOW: u32 = 500;

pub const BONUS_TALL_HIGH: u32 = 1_000;

pub const BONUS_LONG_LOW: u32 = 300;

pub const BONUS_LONG_HIGH: u32 = 700;

/// Spawn ranges for trees: heights and footprints in world units, levels
/// as a small crown count.
pub const TREE_TALL_LOW: u32 = 20;

pub const TREE_TALL_HIGH: u32 = 50;

pub const TREE_LONG_LOW: u32 = 20;

pub const TREE_LONG_HIGH: u32 = 320;

pub const TREE_LEVELS_LOW: u32 = 1;

pub const TREE_LEVELS_HIGH: u32 = 4;

/// Angles in the cleared strip at the top of the planet: scenery whose
/// angle lands here is discarded.
pub open spec fn in_spawn_gap(angle: int) -> bool {
    QUARTER_TURN_MRAD - GAP_MRAD <= angle <= QUARTER_TURN_MRAD + GAP_MRAD
}

/// A house on a planet surface: where it stands, how far it runs along
/// the surface and how high it rises.
#[derive(Clone, Copy, PartialEq, Eq, Structural, Debug)]
pub struct House {
    pub angle: u32,
    pub length: u32,
    pub tall: u32,
}

impl House {
    /// A house is either plain or boosted: the skyscraper bonus raises
    /// height and footprint together, so the ranges are bimodal and a
    /// house over the plain height is exactly a house over the plain
    /// footprint.
    pub open spec fn wf(self) -> bool {
        &&& self.angle < TAU_MRAD
        &&& !in_spawn_gap(self.angle as int)
        &&& ((HOUSE_TALL_LOW <= self.tall < HOUSE_TALL_HIGH && HOUSE_LONG_LOW <= self.length
            < HOUSE_LONG_HIGH) || (HOUSE_TALL_LOW + BONUS_TALL_LOW <= self.tall < HOUSE_TALL_HIGH
            + BONUS_TALL_HIGH && HOUSE_LONG_LOW + BONUS_LONG_LOW <= self.length < HOUSE_LONG_HIGH
            + BONUS_LONG_HIGH))
    }
}

/// A tree on a planet surface, drawn as a stack of crowns.
#[derive(Clone, Copy, PartialEq, Eq, Structural, Debug)]
pub struct Tree {
    pub angle: u32,
    pub tall: u32,
    pub levels: u32,
    pub length: u32,
}

impl Tree {
    pub open spec fn wf(self) -> bool {
        &&& self.angle < TAU_MRAD
        &&& !in_spawn_gap(self.angle as int)
        &&& TREE_TALL_LOW <= self.tall < TREE_TALL_HIGH
        &&& TREE_LEVELS_LOW <= self.levels < TREE_LEVELS_HIGH
        &&& TREE_LONG_LOW <= self.length < TREE_LONG_HIGH
    }
}

/// The outcome of one house attempt, from the drawn values alone: the
/// house stands iff its angle is outside the cleared strip, and when the
/// five coin flips all land on one the bonus raises height and footprint
/// together — on both or on neither.
pub open spec fn house_outcome(
    angle: u32,
    tall: u32,
    length: u32,
    f0: u32,
    f1: u32,
    f2: u32,
    f3: u32,
    f4: u32,
    bonus_tall: u32,
    bonus_length: u32,
) -> Option<House> {
    if in_spawn_gap(angle as int) {
        None
    } else if f0 == 1 && f1 == 1 && f2 == 1 && f3 == 1 && f4 == 1 {
        Some(
            House {
                angle,
                tall: (tall + bonus_tall) as u32,
                length: (length + bonus_length) as u32,
            },
        )
    } else {
        Some(House { angle, tall, length })
    }
}

/// Decide one house attempt from the drawn values.
pub fn house_attempt(
    angle: u32,
    tall: u32,
    length: u32,
    f0: u32,
    f1: u32,
    f2: u32,
    f3: u32,
    f4: u32,
    bonus_tall: u32,
    bonus_length: u32,
) -> (r: Option<House>)
    requires
        angle < TAU_MRAD,
        HOUSE_TALL_LOW <= tall < HOUSE_TALL_HIGH,
        HOUSE_LONG_LOW <= length < HOUSE_LONG_HIGH,
        f0 <= 1,
        f1 <= 1,
        f2 <= 1,
        f3 <= 1,
        f4 <= 1,
        BONUS_TALL_LOW <= bonus_tall < BONUS_TALL_HIGH,
        BONUS_LONG_LOW <= bonus_length < BONUS_LONG_HIGH,
    ensures
        r == house_outcome(angle, tall, length, f0, f1, f2, f3, f4, bonus_tall, bonus_length),
        r matches Some(h) ==> h.wf(),
{
    proof {
        assert((f0 * f1 * f2 * f3 * f4 == 1) == (f0 == 1 && f1 == 1 && f2 == 1 && f3 == 1 && f4
            == 1))
            by (nonlinear_arith)
            requires
                f0 <= 1,
                f1 <= 1,
                f2 <= 1,
                f3 <= 1,
                f4 <= 1,
        ;
    }
    if angle > QUARTER_TURN_MRAD + GAP_MRAD || angle < QUARTER_TURN_MRAD - GAP_MRAD {
        if f0 * f1 * f2 * f3 * f4 == 1 {
            Some(House { angle, tall: tall + bonus_tall, length: length + bonus_length })
        } else {
            Some(House { angle, tall, length })
        }
    } else {
        None
    }
}

/// The outcome of one tree attempt: the tree stands iff its angle is
/// outside the cleared strip.
pub open spec fn tree_outcome(angle: u32, tall: u32, length: u32, levels: u32) -> Option<Tree> {
    if in_spawn_gap(angle as int) {
        None
    } else {
        Some(Tree { angle, tall, levels, length })
    }
}

/// Decide one tree attempt from the drawn values.
pub fn tree_attempt(angle: u32, tall: u32, length: u32, levels: u32) -> (r: Option<Tree>)
    requires
        angle < TAU_MRAD,
        TREE_TALL_LOW <= tall < TREE_TALL_HIGH,
        TREE_LONG_LOW <= length < TREE_LONG_HIGH,
        TREE_LEVELS_LOW <= levels < TREE_LEVELS_HIGH,
    ensures
        r == tree_outcome(angle, tall, length, levels),
        r matches Some(t) ==> t.wf(),
{
    if angle > QUARTER_TURN_MRAD + GAP_MRAD || angle < QUARTER_TURN_MRAD - GAP_MRAD {
        Some(Tree { angle, tall, levels, length })
    } else {
        None
    }
}

/// A planet: a circle in fixed-point world coordinates with scenery
/// scattered on its rim. The radius is in thousandths of a world unit.
pub struct Planet {
    pub radius: i64,
    pub pos: Vec2i,
    pub houses: Vec<House>,
    pub trees: Vec<Tree>,
}

impl Planet {
    pub open spec fn wf(self) -> bool {
        &&& self.radius > 0
        &&& self.houses@.len() <= HOUSE_ATTEMPTS
        &&& self.trees@.len() <= TREE_ATTEMPTS
        &&& forall|i: int| 0 <= i < self.houses@.len() ==> (#[trigger] self.houses@[i]).wf()
        &&& forall|i: int| 0 <= i < self.trees@.len() ==> (#[trigger] self.trees@[i]).wf()
    }

    /// Build a planet, scattering random houses and trees on its surface
    /// when asked to. Every piece of scenery lands at a well-formed spot:
    /// in particular none of them stands in the cleared strip at the top.
    pub fn new(radius: i64, pos: Vec2i, buildings: bool, plants: bool) -> (p: Planet)
        requires
            radius > 0,
        ensures
            p.radius == radius,
            p.pos == pos,
            p.wf(),
            !buildings ==> p.houses@.len() == 0,
            !plants ==> p.trees@.len() == 0,
    {
        let mut houses: Vec<House> = Vec::new();
        let mut trees: Vec<Tree> = Vec::new();

        if buildings {
            let mut attempt: u32 = 0;
            while attempt < HOUSE_ATTEMPTS
                invariant
                    attempt <= HOUSE_ATTEMPTS,
                    houses@.len() <= attempt,
                    forall|i: int| 0 <= i < houses@.len() ==> (#[trigger] houses@[i]).wf(),
                decreases HOUSE_ATTEMPTS - attempt,
            {
                let angle = gen_range_u32(0, TAU_MRAD);
                let tall = gen_range_u32(HOUSE_TALL_LOW, HOUSE_TALL_HIGH);
                let length = gen_range_u32(HOUSE_LONG_LOW, HOUSE_LONG_HIGH);
                let f0 = gen_range_u32(0, 2);
                let f1 = gen_range_u32(0, 2);
                let f2 = gen_range_u32(0, 2);
                let f3 = gen_range_u32(0, 2);
                let f4 = gen_range_u32(0, 2);
                let bonus_tall = gen_range_u32(BONUS_TALL_LOW, BONUS_TALL_HIGH);
                let bonus_length = gen_range_u32(BONUS_LONG_LOW, BONUS_LONG_HIGH);
                match house_attempt(
                    angle,
                    tall,
                    length,
                    f0,
                    f1,
                    f2,
                    f3,
                    f4,
                    bonus_tall,
                    bonus_length,
                ) {
                    Some(h) => houses.push(h),
                    None => {},
                }
                attempt += 1;
            }
        }

        if plants {
            let mut attempt: u32 = 0;
            while attempt < TREE_ATTEMPTS
                invariant
                    attempt <= TREE_ATTEMPTS,
                    trees@.len() <= attempt,
                    forall|i: int| 0 <= i < trees@.len() ==> (#[trigger] trees@[i]).wf(),
                decreases TREE_ATTEMPTS - attempt,
            {
                let angle = gen_range_u32(0, TAU_MRAD);
                let tall = gen_range_u32(TREE_TALL_LOW, TREE_TALL_HIGH);
                let length = gen_range_u32(TREE_LONG_LOW, TREE_LONG_HIGH);
                let levels = gen_range_u32(TREE_LEVELS_LOW, TREE_LEVELS_HIGH);
                match tree_attempt(angle, tall, length, levels) {
                    Some(t) => trees.push(t),
                    None => {},
                }
                attempt += 1;
            }
        }

        Planet { radius, pos, houses, trees }
    }
}

} // verus!
