//! The fixed-point camera: world-to-screen and screen-to-world mapping,
//! the zoomed parallax camera derived from a focus point, the
//! speed-driven zoom heuristic, and the follow rule that keeps the player
//! near the screen centre.
//!
//! Screen coordinates are normalised device coordinates in thousandths
//! (the visible square runs from -1000 to 1000), world coordinates are in
//! thousandths of a world unit, and zoom is in millionths.

use vstd::prelude::*;

verus! {

use vstd::arithmetic::div_mod::{
    lemma_div_is_ordered, lemma_div_multiples_vanish, lemma_mod_multiples_basic,
};
use crate::geom::{
    div_t, div_trunc, iabs, lemma_div_t_bound, lemma_div_t_exact, lemma_div_t_mag, Vec2i,
};

/// One, in zoom units.
pub const MICRO: i64 = 1_000_000;

/// The camera never zooms in past a thousandfold.
pub const ZOOM_CAP: i64 = 1_000_000_000;

/// How far from the camera target a mapped world point may lie.
pub const SPAN_CAP: i64 = 1_000_000_000;

/// How far off screen a screen coordinate may lie and still be mapped
/// back to the world.
pub const NDC_CAP: i64 = 1_000_000_000;

/// The camera offset stays within one screen.
pub const OFFSET_CAP: i64 = 1_000_000;

/// Bound on camera targets and on focus points handed to the camera.
pub const TARGET_CAP: i64 = 1_000_000_000_000;

/// Largest screen coordinate the world-to-screen map can produce under
/// the bounds above.
pub const SCREEN_OUT_CAP: i64 = 1_000_001_000_000;

/// The screen-centre band: once the player's screen coordinate leaves
/// [-EDGE, EDGE] on either axis, the camera target follows.
pub const FOLLOW_EDGE: i64 = 400;

/// The resting zoom, and the speed (in millionths of a unit per second)
/// under which it applies.
pub const BASE_ZOOM: i64 = 2_000;

pub const SPEED_EPS: u64 = 1_000;

/// Numerator of the speed-driven zoom: half a screen per second,
/// expressed in zoom units times speed units.
pub const ZOOM_NUMER: u64 = 500_000_000_000;

/// A two-dimensional camera over the fixed-point world.
#[derive(Clone, Copy, PartialEq, Eq, Structural, Debug)]
pub struct Camera {
    pub target: Vec2i,
    pub offset: Vec2i,
    pub zoom: i64,
    pub rotation: i64,
}

/// One axis of the world-to-screen map: scale the distance from the
/// target by the zoom, then shift by the offset.
pub open spec fn w2s_coord(w: int, t: int, off: int, zoom: int) -> int {
    div_t((w - t) * zoom, MICRO as int) + off
}

/// One axis of the screen-to-world map, the inverse direction: unshift
/// by the offset, scale back up, land relative to the target.
pub open spec fn s2w_coord(s: int, t: int, off: int, zoom: int) -> int {
    div_t((s - off) * (MICRO as int), zoom) + t
}

/// How far the camera target moves on one axis when the player's screen
/// coordinate has drifted out of the centre band.
pub open spec fn edge_shift(s: int, off: int, zoom: int) -> int {
    if s >= FOLLOW_EDGE {
        div_t((s - off) * (MICRO as int), zoom) - div_t((FOLLOW_EDGE - off) * (MICRO as int), zoom)
    } else if s <= -FOLLOW_EDGE {
        div_t((s - off) * (MICRO as int), zoom) - div_t(
            ((-FOLLOW_EDGE) - off) * (MICRO as int),
            zoom,
        )
    } else {
        0
    }
}

/// The two maps are inverses: a world point whose distance from the
/// target scales to a whole screen coordinate is mapped back to itself
/// by the screen-to-world map, on any axis and under any offset.
pub proof fn lemma_round_trip(w: int, t: int, off: int, zoom: int)
    requires
        0 < zoom,
        ((w - t) * zoom) % (MICRO as int) == 0,
    ensures
        s2w_coord(w2s_coord(w, t, off, zoom), t, off, zoom) == w,
{
    let d = w - t;
    let p = d * zoom;
    lemma_div_t_exact(p, MICRO as int);
    let q = div_t(p, MICRO as int);
    assert(q * (MICRO as int) == p);
    vstd::arithmetic::mul::lemma_mul_is_commutative(d, zoom);
    lemma_mod_multiples_basic(d, zoom);
    lemma_div_t_exact(q * (MICRO as int), zoom);
    lemma_div_multiples_vanish(d, zoom);
}

/// The parallax camera keeps the focus on screen: pulling the target
/// back from the focus by its screen displacement over the new zoom maps
/// the focus to the same screen coordinate it had, on any axis whose
/// displacement is measured from the offset, whenever both divisions are
/// exact. The horizontal pull-back measures from zero instead, so there
/// this statement is the one with `off == 0`.
pub proof fn lemma_magic_preserves_focus(f: int, t: int, off: int, zoom: int, zoom2: int)
    requires
        0 < zoom,
        0 < zoom2,
        ((f - t) * zoom) % (MICRO as int) == 0,
        ((w2s_coord(f, t, off, zoom) - off) * (MICRO as int)) % zoom2 == 0,
    ensures
        w2s_coord(
            f,
            f - div_t((w2s_coord(f, t, off, zoom) - off) * (MICRO as int), zoom2),
            off,
            zoom2,
        ) == w2s_coord(f, t, off, zoom),
{
    let m = MICRO as int;
    lemma_div_t_exact((f - t) * zoom, m);
    let q = div_t((f - t) * zoom, m);
    assert(w2s_coord(f, t, off, zoom) - off == q);
    lemma_div_t_exact(q * m, zoom2);
    let h = div_t(q * m, zoom2);
    assert(h * zoom2 == q * m);
    lemma_mod_multiples_basic(q, m);
    lemma_div_t_exact(h * zoom2, m);
    vstd::arithmetic::mul::lemma_mul_is_commutative(q, m);
    lemma_div_multiples_vanish(q, m);
}

/// One axis of the world-to-screen map, executed.
fn w2s_axis(w: i64, t: i64, off: i64, zoom: i64) -> (r: i64)
    requires
        iabs(w - t) <= SPAN_CAP,
        0 < zoom <= ZOOM_CAP,
        iabs(off as int) <= OFFSET_CAP,
    ensures
        r == w2s_coord(w as int, t as int, off as int, zoom as int),
        iabs(r as int) <= SCREEN_OUT_CAP,
{
    let d = w - t;
    proof {
        assert(iabs(d * zoom) <= 1_000_000_000_000_000_000)
            by (nonlinear_arith)
            requires
                iabs(d as int) <= SPAN_CAP,
                0 < zoom <= ZOOM_CAP,
        ;
        lemma_div_t_mag(d * zoom, MICRO as int);
        lemma_div_is_ordered(iabs(d * zoom), 1_000_000_000_000_000_000, MICRO as int);
    }
    let p = d * zoom;
    let q = div_trunc(p, MICRO);
    q + off
}

/// One axis of the screen-to-world map, executed.
fn s2w_axis(s: i64, t: i64, off: i64, zoom: i64) -> (r: i64)
    requires
        iabs(s as int) <= NDC_CAP,
        iabs(t as int) <= TARGET_CAP,
        iabs(off as int) <= OFFSET_CAP,
        0 < zoom <= ZOOM_CAP,
    ensures
        r == s2w_coord(s as int, t as int, off as int, zoom as int),
{
    let d = s - off;
    let p = d * MICRO;
    proof {
        lemma_div_t_bound(p as int, zoom as int);
    }
    let q = div_trunc(p, zoom);
    q + t
}

impl Camera {
    /// Bounds under which the camera's maps cannot overflow.
    pub open spec fn wf(self) -> bool {
        &&& 0 < self.zoom <= ZOOM_CAP
        &&& iabs(self.offset.x as int) <= OFFSET_CAP
        &&& iabs(self.offset.y as int) <= OFFSET_CAP
        &&& iabs(self.target.x as int) <= TARGET_CAP
        &&& iabs(self.target.y as int) <= TARGET_CAP
    }

    pub fn new(target: Vec2i, offset: Vec2i, zoom: i64, rotation: i64) -> (c: Camera)
        ensures
            c.target == target,
            c.offset == offset,
            c.zoom == zoom,
            c.rotation == rotation,
    {
        Camera { target, offset, zoom, rotation }
    }

    /// Map a world point to the screen.
    pub fn world_to_screen(&self, w: Vec2i) -> (s: Vec2i)
        requires
            self.wf(),
            iabs(w.x - self.target.x) <= SPAN_CAP,
            iabs(w.y - self.target.y) <= SPAN_CAP,
        ensures
            s.x == w2s_coord(w.x as int, self.target.x as int, self.offset.x as int, self.zoom as int),
            s.y == w2s_coord(w.y as int, self.target.y as int, self.offset.y as int, self.zoom as int),
            iabs(s.x as int) <= SCREEN_OUT_CAP,
            iabs(s.y as int) <= SCREEN_OUT_CAP,
    {
        Vec2i {
            x: w2s_axis(w.x, self.target.x, self.offset.x, self.zoom),
            y: w2s_axis(w.y, self.target.y, self.offset.y, self.zoom),
        }
    }

    /// Map a screen point back into the world.
    pub fn screen_to_world(&self, s: Vec2i) -> (w: Vec2i)
        requires
            self.wf(),
            iabs(s.x as int) <= NDC_CAP,
            iabs(s.y as int) <= NDC_CAP,
        ensures
            w.x == s2w_coord(s.x as int, self.target.x as int, self.offset.x as int, self.zoom as int),
            w.y == s2w_coord(s.y as int, self.target.y as int, self.offset.y as int, self.zoom as int),
    {
        Vec2i {
            x: s2w_axis(s.x, self.target.x, self.offset.x, self.zoom),
            y: s2w_axis(s.y, self.target.y, self.offset.y, self.zoom),
        }
    }

    /// The parallax trick: a camera with the given zoom whose target is
    /// pulled back from the focus point by the focus point's screen
    /// displacement (measured from the offset on the vertical axis),
    /// scaled into world units by the new zoom — one division, so that
    /// the focus keeps its screen position wherever the maps are exact.
    pub fn magic_zoomed(&self, focus: Vec2i, zoom: i64) -> (c: Camera)
        requires
            self.wf(),
            0 < zoom <= ZOOM_CAP,
            iabs(focus.x - self.target.x) <= SPAN_CAP,
            iabs(focus.y - self.target.y) <= SPAN_CAP,
            iabs(focus.x as int) <= TARGET_CAP,
            iabs(focus.y as int) <= TARGET_CAP,
        ensures
            c.zoom == zoom,
            c.offset == self.offset,
            c.rotation == self.rotation,
            c.target.x == focus.x - div_t(
                w2s_coord(focus.x as int, self.target.x as int, self.offset.x as int, self.zoom as int)
                    * (MICRO as int),
                zoom as int,
            ),
            c.target.y == focus.y - div_t(
                (w2s_coord(focus.y as int, self.target.y as int, self.offset.y as int, self.zoom as int)
                    - self.offset.y) * (MICRO as int),
                zoom as int,
            ),
    {
        let mp = self.world_to_screen(focus);
        let dy = mp.y - self.offset.y;
        proof {
            assert(iabs(mp.x * MICRO) <= 2_000_002_000_000_000_000)
                by (nonlinear_arith)
                requires
                    iabs(mp.x as int) <= SCREEN_OUT_CAP + OFFSET_CAP,
            ;
            assert(iabs(dy * MICRO) <= 2_000_002_000_000_000_000)
                by (nonlinear_arith)
                requires
                    iabs(dy as int) <= SCREEN_OUT_CAP + OFFSET_CAP,
            ;
            lemma_div_t_bound(mp.x * MICRO, zoom as int);
            lemma_div_t_bound(dy * MICRO, zoom as int);
        }
        let sx = div_trunc(mp.x * MICRO, zoom);
        let sy = div_trunc(dy * MICRO, zoom);
        Camera {
            target: Vec2i { x: focus.x - sx, y: focus.y - sy },
            offset: self.offset,
            zoom,
            rotation: self.rotation,
        }
    }

    /// The on-screen thickness of a line: how much world distance five
    /// pixels cover under this camera. The probe is 5000 / width screen
    /// thousandths, so screens wider than five thousand pixels truncate
    /// it to zero and nearby widths can share a thickness: the thickness
    /// falls with zoom only as far as this resolution resolves.
    pub fn line_thickness(&self, screen_width: u32) -> (r: i64)
        requires
            self.wf(),
            screen_width >= 1,
        ensures
            r == iabs(
                s2w_coord(0, self.target.x as int, self.offset.x as int, self.zoom as int) - s2w_coord(
                    5_000 as int / screen_width as int,
                    self.target.x as int,
                    self.offset.x as int,
                    self.zoom as int,
                ),
            ),
    {
        let p0 = self.screen_to_world(Vec2i { x: 0, y: 0 });
        let sx = (5_000u32 / screen_width) as i64;
        let p1 = self.screen_to_world(Vec2i { x: sx, y: 0 });
        let d = p0.x - p1.x;
        if d >= 0 {
            d
        } else {
            -d
        }
    }

    /// Where the camera target moves to keep the given screen position of
    /// the player inside the centre band.
    pub fn follow_target(&self, screen_pos: Vec2i) -> (t: Vec2i)
        requires
            self.wf(),
            iabs(screen_pos.x as int) <= NDC_CAP,
            iabs(screen_pos.y as int) <= NDC_CAP,
        ensures
            t.x == self.target.x + edge_shift(screen_pos.x as int, self.offset.x as int, self.zoom as int),
            t.y == self.target.y + edge_shift(screen_pos.y as int, self.offset.y as int, self.zoom as int),
    {
        Vec2i {
            x: follow_axis(screen_pos.x, self.target.x, self.offset.x, self.zoom),
            y: follow_axis(screen_pos.y, self.target.y, self.offset.y, self.zoom),
        }
    }
}

/// One axis of the follow rule, executed.
fn follow_axis(s: i64, t: i64, off: i64, zoom: i64) -> (r: i64)
    requires
        iabs(s as int) <= NDC_CAP,
        iabs(t as int) <= TARGET_CAP,
        iabs(off as int) <= OFFSET_CAP,
        0 < zoom <= ZOOM_CAP,
    ensures
        r == t + edge_shift(s as int, off as int, zoom as int),
{
    if s >= FOLLOW_EDGE {
        proof {
            lemma_div_t_bound((s - off) * MICRO, zoom as int);
            lemma_div_t_bound((FOLLOW_EDGE - off) * MICRO, zoom as int);
        }
        let a = div_trunc((s - off) * MICRO, zoom);
        let b = div_trunc((FOLLOW_EDGE - off) * MICRO, zoom);
        t + (a - b)
    } else if s <= -FOLLOW_EDGE {
        proof {
            lemma_div_t_bound((s - off) * MICRO, zoom as int);
            lemma_div_t_bound(((-FOLLOW_EDGE) - off) * MICRO, zoom as int);
        }
        let a = div_trunc((s - off) * MICRO, zoom);
        let b = div_trunc(((-FOLLOW_EDGE) - off) * MICRO, zoom);
        t + (a - b)
    } else {
        t
    }
}

/// The speed-driven zoom: at rest the camera sits at the base zoom, and
/// past the speed threshold it zooms out in inverse proportion to speed
/// and screen width, never past the base zoom. Speed is in millionths of
/// a unit per second.
pub fn follow_zoom(speed: u64, screen_width: u32) -> (z: i64)
    requires
        1 <= screen_width <= 100_000,
        speed <= 1_000_000_000_000,
    ensures
        speed < SPEED_EPS ==> z == BASE_ZOOM,
        speed >= SPEED_EPS ==> z == ({
            let q = ZOOM_NUMER as int / (speed as int * screen_width as int);
            if q < BASE_ZOOM {
                q
            } else {
                BASE_ZOOM as int
            }
        }),
{
    if speed < SPEED_EPS {
        BASE_ZOOM
    } else {
        proof {
            assert(speed as int * screen_width as int <= 100_000_000_000_000_000)
                by (nonlinear_arith)
                requires
                    SPEED_EPS <= speed <= 1_000_000_000_000,
                    1 <= screen_width <= 100_000,
            ;
            assert(speed as int * screen_width as int >= 1000)
                by (nonlinear_arith)
                requires
                    speed >= SPEED_EPS,
                    screen_width >= 1,
            ;
        }
        let q = ZOOM_NUMER / (speed * (screen_width as u64));
        if q < BASE_ZOOM as u64 {
            q as i64
        } else {
            BASE_ZOOM
        }
    }
}

/// One frame of zoom smoothing: move one percent of the way from the
/// current zoom towards the goal.
pub fn blend_zoom(current: i64, goal: i64) -> (z: i64)
    requires
        0 <= current <= ZOOM_CAP,
        0 <= goal <= ZOOM_CAP,
    ensures
        z == (99 * current + goal) / 100,
{
    (((current as u64) * 99 + (goal as u64)) / 100) as i64
}

/// The manual zoom keys: one percent in or out.
pub fn nudged_zoom(current: i64, inward: bool) -> (z: i64)
    requires
        0 <= current <= ZOOM_CAP,
    ensures
        inward ==> z == current * 101 / 100,
        !inward ==> z == current * 99 / 100,
{
    if inward {
        (((current as u64) * 101) / 100) as i64
    } else {
        (((current as u64) * 99) / 100) as i64
    }
}

} // verus!
