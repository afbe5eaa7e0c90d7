//! Whole-number geometry: points, rectangles, saturating motion and
//! integer square roots.

use vstd::prelude::*;

verus! {

/// Sub-pixel units that make up one pixel.
pub const UNITS_PER_PIXEL: i32 = 1000;

/// The nearest value to `v` that an `i32` can hold.
pub open spec fn clamp(v: int) -> int {
    if v < i32::MIN as int {
        i32::MIN as int
    } else if v > i32::MAX as int {
        i32::MAX as int
    } else {
        v
    }
}

/// Half of `v`, rounded toward zero.
pub open spec fn half(v: int) -> int {
    if v >= 0 {
        v / 2
    } else {
        -((-v) / 2)
    }
}

/// The microseconds in a second.
pub const MICROS_PER_SECOND: i64 = 1000000;

/// `n / d`, rounded toward zero.
pub open spec fn quotient(n: int, d: int) -> int {
    if n >= 0 {
        n / d
    } else {
        -((-n) / d)
    }
}

/// How far a velocity of `vel` units per second leads in `dt` microseconds,
/// in units rounded toward zero.
pub open spec fn travelled(vel: int, dt: int) -> int {
    quotient(vel * dt, MICROS_PER_SECOND as int)
}

/// Where a coordinate at `pos` stands after moving at `vel` units per second
/// for `dt` microseconds.
pub open spec fn moved(pos: int, vel: int, dt: int) -> int {
    clamp(pos + travelled(vel, dt))
}

/// Narrows a wide value to `i32`, stopping at the ends of the range.
pub fn saturate(v: i64) -> (r: i32)
    ensures
        r as int == clamp(v as int),
{
    if v < i32::MIN as i64 {
        i32::MIN
    } else if v > i32::MAX as i64 {
        i32::MAX
    } else {
        v as i32
    }
}

/// Half of `v`, rounded toward zero.
pub fn halve(v: i32) -> (r: i32)
    ensures
        r as int == half(v as int),
{
    v / 2
}

/// Moves a coordinate at `vel` units per second for `dt` microseconds.
pub fn advance(pos: i32, vel: i32, dt: u32) -> (r: i32)
    ensures
        r as int == moved(pos as int, vel as int, dt as int),
{
    assert(-0x8000_0000 * 0xffff_ffff <= (vel as int) * (dt as int) <= 0x8000_0000 * 0xffff_ffff)
        by (nonlinear_arith)
        requires
            -0x8000_0000 <= vel as int <= 0x7fff_ffff,
            0 <= dt as int <= 0xffff_ffff,
    ;
    let way: i64 = (vel as i64) * (dt as i64);
    let step: i64 = way / MICROS_PER_SECOND;
    saturate(pos as i64 + step)
}

/// A point or a displacement, in sub-pixel units; as a velocity, in units
/// per second.
#[derive(Clone, Copy, Debug, PartialEq, Eq, Structural)]
pub struct Vec2 {
    pub x: i32,
    pub y: i32,
}

/// An axis-aligned box: top-left corner and size.
#[derive(Clone, Copy, Debug, PartialEq, Eq, Structural)]
pub struct Rect {
    pub x: i32,
    pub y: i32,
    pub w: i32,
    pub h: i32,
}

/// The larger of two numbers.
pub open spec fn larger(a: int, b: int) -> int {
    if a >= b {
        a
    } else {
        b
    }
}

/// The smaller of two numbers.
pub open spec fn smaller(a: int, b: int) -> int {
    if a <= b {
        a
    } else {
        b
    }
}

impl Rect {
    /// The x coordinate of the right edge.
    pub open spec fn right(self) -> int {
        self.x + self.w
    }

    /// The y coordinate of the bottom edge.
    pub open spec fn bottom(self) -> int {
        self.y + self.h
    }

    /// Whether the two boxes, edges included, share at least one point.
    pub open spec fn meets(self, other: Rect) -> bool {
        &&& larger(self.x as int, other.x as int) <= smaller(self.right(), other.right())
        &&& larger(self.y as int, other.y as int) <= smaller(self.bottom(), other.bottom())
    }

    /// The box that the two share, if they share any point.
    pub open spec fn common(self, other: Rect) -> Option<Rect> {
        if self.meets(other) {
            let left = larger(self.x as int, other.x as int);
            let top = larger(self.y as int, other.y as int);
            Some(
                Rect {
                    x: left as i32,
                    y: top as i32,
                    w: (smaller(self.right(), other.right()) - left) as i32,
                    h: (smaller(self.bottom(), other.bottom()) - top) as i32,
                },
            )
        } else {
            None
        }
    }

    /// Whether the point lies in the box. The left and top edges belong to
    /// the box, the right and bottom edges do not.
    pub open spec fn holds(self, p: Vec2) -> bool {
        &&& self.x <= p.x
        &&& p.x < self.right()
        &&& self.y <= p.y
        &&& p.y < self.bottom()
    }

    /// The corner after the box was moved so that its middle stands on the
    /// middle of a screen of the given size.
    pub open spec fn centered_corner(self, screen: Vec2) -> Vec2 {
        Vec2 {
            x: (half(screen.x as int) - half(self.w as int)) as i32,
            y: (half(screen.y as int) - half(self.h as int)) as i32,
        }
    }

    /// The middle of the box: the corner plus half the size.
    pub open spec fn middle(self) -> Vec2 {
        Vec2 {
            x: clamp(self.x + half(self.w as int)) as i32,
            y: clamp(self.y + half(self.h as int)) as i32,
        }
    }

    /// The corner opposite the top-left one.
    pub open spec fn far_corner(self) -> Vec2 {
        Vec2 { x: clamp(self.right()) as i32, y: clamp(self.bottom()) as i32 }
    }

    /// Whether the box has left a screen of the given size altogether: it
    /// lies beyond the right or the bottom edge, or it ends before the left or
    /// the top edge. A box that touches an edge from outside has not left.
    pub open spec fn outside(self, screen: Vec2) -> bool {
        ||| self.x > screen.x
        ||| self.y > screen.y
        ||| self.right() < 0
        ||| self.bottom() < 0
    }

    /// The box after moving at velocity `vel` for `dt` microseconds.
    pub open spec fn shifted(self, vel: Vec2, dt: u32) -> Rect {
        Rect {
            x: moved(self.x as int, vel.x as int, dt as int) as i32,
            y: moved(self.y as int, vel.y as int, dt as int) as i32,
            ..self
        }
    }

    pub fn new(x: i32, y: i32, w: i32, h: i32) -> (r: Rect)
        ensures
            r == (Rect { x, y, w, h }),
    {
        Rect { x, y, w, h }
    }

    /// The top-left corner.
    pub fn point(&self) -> (p: Vec2)
        ensures
            p == (Vec2 { x: self.x, y: self.y }),
    {
        Vec2 { x: self.x, y: self.y }
    }

    /// Width and height.
    pub fn size(&self) -> (p: Vec2)
        ensures
            p == (Vec2 { x: self.w, y: self.h }),
    {
        Vec2 { x: self.w, y: self.h }
    }

    /// The middle of the box.
    pub fn center(&self) -> (p: Vec2)
        ensures
            p == self.middle(),
    {
        Vec2 {
            x: saturate(self.x as i64 + halve(self.w) as i64),
            y: saturate(self.y as i64 + halve(self.h) as i64),
        }
    }

    /// The bottom-right corner.
    pub fn opposite(&self) -> (p: Vec2)
        ensures
            p == self.far_corner(),
    {
        Vec2 {
            x: saturate(self.x as i64 + self.w as i64),
            y: saturate(self.y as i64 + self.h as i64),
        }
    }

    /// The top-left corner that centers this box on the screen.
    pub fn centered(&self, screen: Vec2) -> (p: Vec2)
        ensures
            p == self.centered_corner(screen),
    {
        Vec2 { x: halve(screen.x) - halve(self.w), y: halve(screen.y) - halve(self.h) }
    }

    /// Whether the box has left a screen of the given size altogether.
    pub fn is_outside(&self, screen: Vec2) -> (b: bool)
        ensures
            b == self.outside(screen),
    {
        let right: i64 = self.x as i64 + self.w as i64;
        let bottom: i64 = self.y as i64 + self.h as i64;
        self.x > screen.x || self.y > screen.y || right < 0 || bottom < 0
    }

    /// The box after moving at velocity `vel` for `dt` microseconds.
    pub fn shift(&self, vel: Vec2, dt: u32) -> (r: Rect)
        ensures
            r == self.shifted(vel, dt),
    {
        Rect { x: advance(self.x, vel.x, dt), y: advance(self.y, vel.y, dt), w: self.w, h: self.h }
    }

    /// Whether the point lies in the box.
    pub fn contains(&self, p: Vec2) -> (b: bool)
        ensures
            b == self.holds(p),
    {
        let right: i64 = self.x as i64 + self.w as i64;
        let bottom: i64 = self.y as i64 + self.h as i64;
        p.x >= self.x && (p.x as i64) < right && (p.y as i64) < bottom && p.y >= self.y
    }

    /// The box that the two share; `None` when they share no point. Boxes
    /// that only touch share their common edge.
    pub fn intersect(&self, other: Rect) -> (r: Option<Rect>)
        ensures
            r == self.common(other),
            r is Some <==> self.meets(other),
    {
        let left: i64 = if self.x >= other.x {
            self.x as i64
        } else {
            other.x as i64
        };
        let top: i64 = if self.y >= other.y {
            self.y as i64
        } else {
            other.y as i64
        };
        let r1: i64 = self.x as i64 + self.w as i64;
        let r2: i64 = other.x as i64 + other.w as i64;
        let b1: i64 = self.y as i64 + self.h as i64;
        let b2: i64 = other.y as i64 + other.h as i64;
        let right: i64 = if r1 <= r2 {
            r1
        } else {
            r2
        };
        let bottom: i64 = if b1 <= b2 {
            b1
        } else {
            b2
        };
        if right < left || bottom < top {
            return None;
        }
        Some(
            Rect { x: left as i32, y: top as i32, w: (right - left) as i32, h: (bottom - top) as i32 },
        )
    }
}

/// A box of no negative size has left the screen exactly when it shares no
/// point with the screen's own box.
pub proof fn lemma_outside_is_apart(r: Rect, screen: Vec2)
    requires
        r.w >= 0,
        r.h >= 0,
        screen.x >= 0,
        screen.y >= 0,
    ensures
        r.outside(screen) <==> !r.meets(Rect { x: 0, y: 0, w: screen.x, h: screen.y }),
{
}

/// A box at rest stays where it is, however much time passes.
pub proof fn lemma_rest_keeps_place(r: Rect, dt: u32)
    ensures
        r.shifted(Vec2 { x: 0, y: 0 }, dt) == r,
{
}

/// `r` is the whole part of the square root of `n`.
pub open spec fn is_root(n: int, r: int) -> bool {
    0 <= r && r * r <= n < (r + 1) * (r + 1)
}

/// The whole part of the square root of `n`.
pub open spec fn root(n: int) -> int {
    choose|r: int| is_root(n, r)
}

/// No number has two whole square roots.
pub proof fn lemma_root_unique(n: int, a: int, b: int)
    requires
        is_root(n, a),
        is_root(n, b),
    ensures
        a == b,
{
    if a < b {
        assert((a + 1) * (a + 1) <= b * b) by (nonlinear_arith)
            requires
                0 <= a + 1 <= b,
        ;
    }
    if b < a {
        assert((b + 1) * (b + 1) <= a * a) by (nonlinear_arith)
            requires
                0 <= b + 1 <= a,
        ;
    }
}

/// Every number from zero on has a whole square root, and `root` names it.
pub proof fn lemma_root_exists(n: int)
    requires
        0 <= n,
    ensures
        is_root(n, root(n)),
    decreases n,
{
    if n == 0 {
        assert(is_root(0, 0));
    } else {
        lemma_root_exists(n - 1);
        let r = root(n - 1);
        if n < (r + 1) * (r + 1) {
            assert(is_root(n, r));
        } else {
            assert((r + 2) * (r + 2) > (r + 1) * (r + 1)) by (nonlinear_arith)
                requires
                    0 <= r,
            ;
            assert(is_root(n, r + 1));
        }
    }
}

/// The whole part of the square root of `n`.
pub fn isqrt(n: u128) -> (r: u64)
    ensures
        is_root(n as int, r as int),
        r as int == root(n as int),
{
    let mut lo: u128 = 0;
    let mut hi: u128 = 0x1_0000_0000_0000_0000;
    assert(0x1_0000_0000_0000_0000int * 0x1_0000_0000_0000_0000int > u128::MAX as int)
        by (nonlinear_arith);
    while hi - lo > 1
        invariant
            lo < hi <= 0x1_0000_0000_0000_0000,
            lo * lo <= n < hi * hi,
        decreases hi - lo,
    {
        let mid: u128 = lo + (hi - lo) / 2;
        assert(mid * mid <= 0xffff_ffff_ffff_ffff * 0xffff_ffff_ffff_ffff) by (nonlinear_arith)
            requires
                0 <= mid <= 0xffff_ffff_ffff_ffff,
        ;
        if mid * mid <= n {
            lo = mid;
        } else {
            hi = mid;
        }
    }
    proof {
        assert(is_root(n as int, lo as int));
        lemma_root_exists(n as int);
        lemma_root_unique(n as int, lo as int, root(n as int));
    }
    lo as u64
}

/// One component of a displacement `(d, e)` after it was stretched or
/// shrunk to the length `speed`: `|d| * speed / sqrt(d * d + e * e)`, rounded
/// toward zero, with the sign of `d`. The displacement `(0, 0)` gives 0.
pub open spec fn scaled(d: int, e: int, speed: int) -> int {
    if d == 0 {
        0
    } else {
        let m = root((d * d * speed * speed) / (d * d + e * e));
        if d < 0 {
            -m
        } else {
            m
        }
    }
}

/// The velocity of length `speed` that leads from `from` toward `to`, as
/// far as a velocity can hold it.
pub open spec fn aimed(from: Vec2, to: Vec2, speed: int) -> Vec2 {
    Vec2 {
        x: clamp(scaled(to.x - from.x, to.y - from.y, speed)) as i32,
        y: clamp(scaled(to.y - from.y, to.x - from.x, speed)) as i32,
    }
}

/// What `scaled` is: for a displacement other than `(0, 0)`, the component
/// `v` has the sign of `d`, and `|v|` is the largest whole number with
/// `v * v * (d * d + e * e) <= speed * speed * d * d`; so `v` is the exact
/// component `speed * d / sqrt(d * d + e * e)` of the unit direction scaled to
/// `speed`, rounded toward zero.
pub proof fn lemma_scaled_is_direction(d: int, e: int, speed: int)
    requires
        d != 0 || e != 0,
        0 <= speed,
    ensures
        ({
            let v = scaled(d, e, speed);
            let len2 = d * d + e * e;
            let m = if v < 0 {
                -v
            } else {
                v
            };
            &&& 0 <= m <= speed
            &&& d > 0 ==> v >= 0
            &&& d < 0 ==> v <= 0
            &&& d == 0 ==> v == 0
            &&& v * v * len2 <= speed * speed * (d * d)
            &&& speed * speed * (d * d) < (m + 1) * (m + 1) * len2
        }),
{
    let len2 = d * d + e * e;
    assert(d * d >= 0 && e * e >= 0) by (nonlinear_arith);
    assert(len2 > 0) by (nonlinear_arith)
        requires
            d != 0 || e != 0,
            len2 == d * d + e * e,
    ;
    if d == 0 {
        assert(speed * speed * (d * d) == 0) by (nonlinear_arith)
            requires
                d == 0,
        ;
        assert((0 + 1) * (0 + 1) * len2 == len2) by (nonlinear_arith);
    } else {
        let num = d * d * speed * speed;
        assert(num >= 0 && num == speed * speed * (d * d)) by (nonlinear_arith)
            requires
                num == d * d * speed * speed,
        ;
        let q = num / len2;
        vstd::arithmetic::div_mod::lemma_fundamental_div_mod(num, len2);
        vstd::arithmetic::div_mod::lemma_mod_bound(num, len2);
        vstd::arithmetic::div_mod::lemma_div_pos_is_pos(num, len2);
        assert(num == len2 * q + num % len2);
        lemma_root_exists(q);
        let m = root(q);
        let v = scaled(d, e, speed);
        assert(v == m || v == -m);
        assert(v * v == m * m) by (nonlinear_arith)
            requires
                v == m || v == -m,
        ;
        assert(m * m * len2 <= num) by (nonlinear_arith)
            requires
                m * m <= q,
                len2 > 0,
                num == len2 * q + num % len2,
                0 <= num % len2,
        ;
        assert(num < (m + 1) * (m + 1) * len2) by (nonlinear_arith)
            requires
                q + 1 <= (m + 1) * (m + 1),
                len2 > 0,
                num == len2 * q + num % len2,
                num % len2 < len2,
        ;
        assert(q <= speed * speed) by {
            assert(num <= speed * speed * len2) by (nonlinear_arith)
                requires
                    num == speed * speed * (d * d),
                    len2 == d * d + e * e,
                    e * e >= 0,
                    speed * speed >= 0,
            ;
            if q > speed * speed {
                assert(len2 * q >= len2 * (speed * speed + 1)) by (nonlinear_arith)
                    requires
                        q >= speed * speed + 1,
                        len2 > 0,
                ;
                assert(len2 * (speed * speed + 1) == speed * speed * len2 + len2)
                    by (nonlinear_arith);
            }
        }
        if m > speed {
            assert(m * m >= (speed + 1) * (speed + 1)) by (nonlinear_arith)
                requires
                    m >= speed + 1,
                    speed >= 0,
            ;
            assert((speed + 1) * (speed + 1) > speed * speed) by (nonlinear_arith)
                requires
                    speed >= 0,
            ;
        }
    }
}

/// One component of the velocity of length `speed` along `(d, e)`.
fn scale(d: i64, e: i64, speed: u32) -> (v: i64)
    requires
        -0xffff_ffff <= d <= 0xffff_ffff,
        -0xffff_ffff <= e <= 0xffff_ffff,
    ensures
        v as int == scaled(d as int, e as int, speed as int),
        -(speed as int) <= v <= speed as int,
{
    if d == 0 {
        return 0;
    }
    proof {
        lemma_scaled_is_direction(d as int, e as int, speed as int);
    }
    assert(0 < d * d <= 0xffff_ffff * 0xffff_ffff) by (nonlinear_arith)
        requires
            -0xffff_ffff <= d <= 0xffff_ffff,
            d != 0,
    ;
    assert(0 <= e * e <= 0xffff_ffff * 0xffff_ffff) by (nonlinear_arith)
        requires
            -0xffff_ffff <= e <= 0xffff_ffff,
    ;
    let da: u128 = if d < 0 {
        (-d) as u128
    } else {
        d as u128
    };
    let ea: u128 = if e < 0 {
        (-e) as u128
    } else {
        e as u128
    };
    assert(da * da == d * d && ea * ea == e * e) by (nonlinear_arith)
        requires
            da == d || da == -d,
            ea == e || ea == -e,
    ;
    let dd: u128 = da * da;
    let ee: u128 = ea * ea;
    let s: u128 = speed as u128;
    assert(0 <= s * s <= 0xffff_ffff * 0xffff_ffff) by (nonlinear_arith)
        requires
            0 <= s <= 0xffff_ffff,
    ;
    let ss: u128 = s * s;
    assert(dd * ss <= (0xffff_ffff * 0xffff_ffff) * (0xffff_ffff * 0xffff_ffff))
        by (nonlinear_arith)
        requires
            0 <= dd <= 0xffff_ffff * 0xffff_ffff,
            0 <= ss <= 0xffff_ffff * 0xffff_ffff,
    ;
    assert(dd * ss == (d as int) * (d as int) * (speed as int) * (speed as int))
        by (nonlinear_arith)
        requires
            dd == d * d,
            ss == s * s,
            s == speed,
    ;
    let q: u128 = (dd * ss) / (dd + ee);
    let m: u64 = isqrt(q);
    if d < 0 {
        -(m as i64)
    } else {
        m as i64
    }
}

/// The velocity of length `speed` that leads from `from` toward `to`; zero
/// when the two points are the same.
pub fn aim(from: Vec2, to: Vec2, speed: u32) -> (v: Vec2)
    ensures
        v == aimed(from, to, speed as int),
        speed <= i32::MAX ==> v.x as int == scaled(to.x - from.x, to.y - from.y, speed as int),
        speed <= i32::MAX ==> v.y as int == scaled(to.y - from.y, to.x - from.x, speed as int),
{
    let dx: i64 = to.x as i64 - from.x as i64;
    let dy: i64 = to.y as i64 - from.y as i64;
    Vec2 { x: saturate(scale(dx, dy, speed)), y: saturate(scale(dy, dx, speed)) }
}

} // verus!
