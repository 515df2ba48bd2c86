//! Integer plane geometry: fixed-point vectors and truncating division.

use vstd::prelude::*;

verus! {

use vstd::arithmetic::div_mod::{
    lemma_div_basics_4, lemma_div_basics_5, lemma_div_multiples_vanish, lemma_fundamental_div_mod,
};
use vstd::arithmetic::mul::{lemma_mul_is_commutative, lemma_mul_unary_negation};

/// Magnitude of an integer.
pub open spec fn iabs(n: int) -> int {
    if n >= 0 {
        n
    } else {
        -n
    }
}

/// Division that rounds towards zero, as machine division of signed
/// integers does. On non-negative operands it agrees with Euclidean `/`.
pub open spec fn div_t(n: int, d: int) -> int
    recommends
        d > 0,
{
    if n >= 0 {
        n / d
    } else {
        -((-n) / d)
    }
}

/// The quotient never grows past the dividend's magnitude.
pub proof fn lemma_div_t_bound(n: int, d: int)
    requires
        d > 0,
    ensures
        iabs(div_t(n, d)) <= iabs(n),
        n >= 0 ==> 0 <= div_t(n, d) <= n,
        n < 0 ==> n <= div_t(n, d) <= 0,
{
    if n >= 0 {
        lemma_div_basics_4(n, d);
        lemma_div_basics_5(n, d);
    } else {
        lemma_div_basics_4(-n, d);
        lemma_div_basics_5(-n, d);
    }
}

/// When the divisor divides the dividend evenly, truncating division is
/// Euclidean division and scales back exactly.
pub proof fn lemma_div_t_exact(a: int, d: int)
    requires
        d > 0,
        a % d == 0,
    ensures
        div_t(a, d) == a / d,
        div_t(a, d) * d == a,
{
    lemma_fundamental_div_mod(a, d);
    lemma_mul_is_commutative(d, a / d);
    if a < 0 {
        lemma_mul_unary_negation(d, a / d);
        lemma_div_multiples_vanish(-(a / d), d);
    }
}

/// The quotient's magnitude is exactly the dividend's magnitude divided
/// down.
pub proof fn lemma_div_t_mag(n: int, d: int)
    requires
        d > 0,
    ensures
        iabs(div_t(n, d)) == iabs(n) / d,
{
    if n >= 0 {
        lemma_div_basics_4(n, d);
    } else {
        lemma_div_basics_4(-n, d);
    }
}

/// Truncating division on machine integers.
pub fn div_trunc(n: i64, d: i64) -> (q: i64)
    requires
        d > 0,
        n > i64::MIN,
    ensures
        q == div_t(n as int, d as int),
        iabs(q as int) <= iabs(n as int),
{
    proof {
        lemma_div_t_bound(n as int, d as int);
    }
    if n >= 0 {
        ((n as u64) / (d as u64)) as i64
    } else {
        let m: u64 = ((-n) as u64) / (d as u64);
        -(m as i64)
    }
}

/// A plane vector with fixed-point coordinates (thousandths of a world unit).
#[derive(Clone, Copy, PartialEq, Eq, Structural, Debug)]
pub struct Vec2i {
    pub x: i64,
    pub y: i64,
}

impl Vec2i {
    pub fn new(x: i64, y: i64) -> (v: Vec2i)
        ensures
            v.x == x,
            v.y == y,
    {
        Vec2i { x, y }
    }

    pub fn plus(self, other: Vec2i) -> (v: Vec2i)
        requires
            i64::MIN <= self.x + other.x <= i64::MAX,
            i64::MIN <= self.y + other.y <= i64::MAX,
        ensures
            v.x == self.x + other.x,
            v.y == self.y + other.y,
    {
        Vec2i { x: self.x + other.x, y: self.y + other.y }
    }

    pub fn minus(self, other: Vec2i) -> (v: Vec2i)
        requires
            i64::MIN <= self.x - other.x <= i64::MAX,
            i64::MIN <= self.y - other.y <= i64::MAX,
        ensures
            v.x == self.x - other.x,
            v.y == self.y - other.y,
    {
        Vec2i { x: self.x - other.x, y: self.y - other.y }
    }

    pub fn scaled(self, k: i64) -> (v: Vec2i)
        requires
            i64::MIN <= self.x * k <= i64::MAX,
            i64::MIN <= self.y * k <= i64::MAX,
        ensures
            v.x == self.x * k,
            v.y == self.y * k,
    {
        Vec2i { x: self.x * k, y: self.y * k }
    }
}

} // verus!
