//! Fixed-point two-dimensional vectors and their arithmetic.

use vstd::prelude::*;

verus! {

/// Number of integer steps in one unit of length (fixed-point scale).
pub const UNIT: i64 = 65536;

/// Largest magnitude of a coordinate that the tick pipeline accepts.
pub const COORD_MAX: i64 = 0x8000_0000;

/// A vector or a point in the plane, in fixed-point coordinates.
#[derive(Clone, Copy, Debug, PartialEq, Eq, Structural)]
pub struct Vec2 {
    pub x: i64,
    pub y: i64,
}

impl View for Vec2 {
    type V = (int, int);

    open spec fn view(&self) -> (int, int) {
        (self.x as int, self.y as int)
    }
}

/// Both coordinates lie within `[-bound, bound]`.
pub open spec fn bounded(p: (int, int), bound: int) -> bool {
    -bound <= p.0 <= bound && -bound <= p.1 <= bound
}

/// Every point of `ps` is within the coordinate range.
pub open spec fn all_bounded(ps: Seq<(int, int)>) -> bool {
    forall|k: int| 0 <= k < ps.len() ==> bounded(#[trigger] ps[k], COORD_MAX as int)
}

pub open spec fn plus(a: (int, int), b: (int, int)) -> (int, int) {
    (a.0 + b.0, a.1 + b.1)
}

pub open spec fn minus(a: (int, int), b: (int, int)) -> (int, int) {
    (a.0 - b.0, a.1 - b.1)
}

/// Squared Euclidean length.
pub open spec fn norm_sq(v: (int, int)) -> int {
    v.0 * v.0 + v.1 * v.1
}

/// Squared Euclidean distance between two points.
pub open spec fn dist_sq(a: (int, int), b: (int, int)) -> int {
    norm_sq(minus(a, b))
}

/// `a` and `b` are at most `radius` apart (never, for a negative radius).
pub open spec fn within(a: (int, int), b: (int, int), radius: int) -> bool {
    radius >= 0 && dist_sq(a, b) <= radius * radius
}

/// Integer division rounding towards zero, as Rust's `/` on integers does.
pub open spec fn div_trunc(a: int, d: int) -> int {
    if a >= 0 {
        a / d
    } else {
        -((-a) / d)
    }
}

/// Sum of a sequence of vectors.
pub open spec fn sum_points(s: Seq<(int, int)>) -> (int, int)
    decreases s.len(),
{
    if s.len() == 0 {
        (0, 0)
    } else {
        plus(sum_points(s.drop_last()), s.last())
    }
}

/// Arithmetic mean of a sequence of points, each coordinate rounded towards
/// zero; the zero vector for an empty sequence.
pub open spec fn mean_point(s: Seq<(int, int)>) -> (int, int) {
    if s.len() == 0 {
        (0, 0)
    } else {
        let t = sum_points(s);
        (div_trunc(t.0, s.len() as int), div_trunc(t.1, s.len() as int))
    }
}

/// The sum of the first `k + 1` items extends the sum of the first `k`.
pub proof fn lemma_sum_points_step(s: Seq<(int, int)>, k: int)
    requires
        0 <= k < s.len(),
    ensures
        sum_points(s.take(k + 1)) == plus(sum_points(s.take(k)), s[k]),
{
    assert(s.take(k + 1).drop_last() =~= s.take(k));
}

/// Dividing a value bounded by `n · c` by `n` gives a value bounded by `c`.
pub proof fn lemma_div_trunc_bounded(t: int, n: int, c: int)
    requires
        n > 0,
        c >= 0,
        -(n * c) <= t <= n * c,
    ensures
        -c <= div_trunc(t, n) <= c,
{
    let a = if t >= 0 { t } else { -t };
    vstd::arithmetic::div_mod::lemma_fundamental_div_mod(a, n);
    vstd::arithmetic::div_mod::lemma_mod_pos_bound(a, n);
    vstd::arithmetic::div_mod::lemma_div_pos_is_pos(a, n);
    assert(a / n <= c) by (nonlinear_arith)
        requires
            a == n * (a / n) + a % n,
            0 <= a % n,
            0 <= a <= n * c,
            n > 0,
    ;
}

/// `div_trunc(t, n)` is `t / n` rounded towards zero: `n` times it falls
/// short of `t` by less than `n`, on the side of zero.
pub proof fn lemma_div_trunc_rounds_to_zero(t: int, n: int)
    requires
        n > 0,
    ensures
        t >= 0 ==> 0 <= t - n * div_trunc(t, n) < n,
        t < 0 ==> -n < t - n * div_trunc(t, n) <= 0,
{
    let a = if t >= 0 { t } else { -t };
    vstd::arithmetic::div_mod::lemma_fundamental_div_mod(a, n);
    vstd::arithmetic::div_mod::lemma_mod_pos_bound(a, n);
    if t < 0 {
        assert(n * (-(a / n)) == -(n * (a / n))) by (nonlinear_arith);
    }
}

/// The points held by a sequence of vectors.
pub open spec fn views(s: Seq<Vec2>) -> Seq<(int, int)> {
    s.map_values(|p: Vec2| p@)
}

/// Mean of `pts`, each coordinate rounded towards zero; zero for no points.
pub fn mean(pts: &Vec<Vec2>) -> (r: Vec2)
    requires
        all_bounded(views(pts@)),
    ensures
        r@ == mean_point(views(pts@)),
        bounded(r@, COORD_MAX as int),
{
    let ghost ps = views(pts@);
    let n = pts.len();
    let mut sx: i128 = 0;
    let mut sy: i128 = 0;
    for k in 0..n
        invariant
            n == pts.len() == ps.len(),
            ps == views(pts@),
            all_bounded(ps),
            (sx as int, sy as int) == sum_points(ps.take(k as int)),
            bounded((sx as int, sy as int), k * COORD_MAX),
    {
        proof {
            lemma_sum_points_step(ps, k as int);
            assert(ps[k as int] == pts[k as int]@);
            assert((k + 1) * COORD_MAX == k * COORD_MAX + COORD_MAX) by (nonlinear_arith);
            assert(k * COORD_MAX <= 0xffff_ffff_ffff_ffff * 0x8000_0000) by (nonlinear_arith)
                requires
                    k <= 0xffff_ffff_ffff_ffff,
            ;
        }
        sx = sx + pts[k].x as i128;
        sy = sy + pts[k].y as i128;
    }
    if n == 0 {
        return Vec2::zeros();
    }
    proof {
        assert(ps.take(n as int) =~= ps);
        lemma_div_trunc_bounded(sx as int, n as int, COORD_MAX as int);
        lemma_div_trunc_bounded(sy as int, n as int, COORD_MAX as int);
    }
    Vec2::new(div_trunc_i128(sx, n as i128) as i64, div_trunc_i128(sy, n as i128) as i64)
}

impl Vec2 {
    pub fn new(x: i64, y: i64) -> (r: Vec2)
        ensures
            r.x == x,
            r.y == y,
    {
        Vec2 { x, y }
    }

    /// Whether both coordinates lie within `[-bound, bound]`.
    pub fn is_bounded(&self, bound: i64) -> (r: bool)
        requires
            bound >= 0,
        ensures
            r == bounded(self@, bound as int),
    {
        -bound <= self.x && self.x <= bound && -bound <= self.y && self.y <= bound
    }

    pub fn zeros() -> (r: Vec2)
        ensures
            r@ == (0int, 0int),
    {
        Vec2 { x: 0, y: 0 }
    }
}

/// `a / d` rounded towards zero.
pub fn div_trunc_i128(a: i128, d: i128) -> (r: i128)
    requires
        d > 0,
        a > i128::MIN,
    ensures
        r == div_trunc(a as int, d as int),
{
    if a >= 0 {
        a / d
    } else {
        -((-a) / d)
    }
}


/// Largest magnitude of a component of a vector that `normalize` accepts.
pub const STEER_MAX: i64 = 0x800_0000_0000;

/// `m` is the magnitude of the component `c` of the unit-length vector along a
/// vector whose squared length is `q`: the largest non-negative `m` with
/// `m² · q ≤ c² · UNIT²`, that is `⌊UNIT · |c| / √q⌋`.
pub open spec fn is_unit_part(m: int, c: int, q: int) -> bool {
    &&& 0 <= m
    &&& m * m * q <= c * c * (UNIT * UNIT)
    &&& (m + 1) * (m + 1) * q > c * c * (UNIT * UNIT)
}

/// Component `c` of the unit-length vector along a vector of squared length `q`,
/// rounded towards zero.
pub open spec fn unit_part(c: int, q: int) -> int {
    let m = choose|m: int| is_unit_part(m, c, q);
    if c < 0 {
        -m
    } else {
        m
    }
}

/// The vector of length `UNIT` pointing along `v`, each component rounded
/// towards zero; the zero vector has no direction and stays zero.
pub open spec fn unit_of(v: (int, int)) -> (int, int) {
    if v == (0int, 0int) {
        (0, 0)
    } else {
        (unit_part(v.0, norm_sq(v)), unit_part(v.1, norm_sq(v)))
    }
}

proof fn lemma_unit_part_unique(m1: int, m2: int, c: int, q: int)
    requires
        q > 0,
        is_unit_part(m1, c, q),
        is_unit_part(m2, c, q),
    ensures
        m1 == m2,
{
    if m1 < m2 {
        assert((m1 + 1) * (m1 + 1) * q <= m2 * m2 * q) by (nonlinear_arith)
            requires
                0 <= m1 < m2,
                q > 0,
        ;
    } else if m2 < m1 {
        assert((m2 + 1) * (m2 + 1) * q <= m1 * m1 * q) by (nonlinear_arith)
            requires
                0 <= m2 < m1,
                q > 0,
        ;
    }
}

/// `unit_part` is the one value that meets `is_unit_part`, with the sign of `c`.
proof fn lemma_unit_part_is(m: int, c: int, q: int)
    requires
        q > 0,
        is_unit_part(m, c, q),
    ensures
        unit_part(c, q) == if c < 0 {
            -m
        } else {
            m
        },
{
    let w = choose|w: int| is_unit_part(w, c, q);
    lemma_unit_part_unique(w, m, c, q);
}

proof fn lemma_last_fit(c: int, q: int, k: int)
    requires
        0 <= k,
        q > 0,
        (k + 1) * (k + 1) * q > c * c * (UNIT * UNIT),
    ensures
        exists|m: int| is_unit_part(m, c, q),
    decreases k,
{
    if k * k * q <= c * c * (UNIT * UNIT) {
        assert(is_unit_part(k, c, q));
    } else {
        assert(k != 0) by (nonlinear_arith)
            requires
                k * k * q > c * c * (UNIT * UNIT),
                UNIT > 0,
        ;
        lemma_last_fit(c, q, k - 1);
    }
}

proof fn lemma_unit_part_exists(c: int, q: int)
    requires
        q > 0,
        c * c <= q,
    ensures
        exists|m: int| is_unit_part(m, c, q),
{
    assert((UNIT + 1) * (UNIT + 1) * q > c * c * (UNIT * UNIT)) by (nonlinear_arith)
        requires
            q > 0,
            c * c <= q,
            UNIT > 0,
    ;
    lemma_last_fit(c, q, UNIT as int);
}

/// The component magnitudes of `unit_of(v)` meet `is_unit_part`.
pub proof fn lemma_unit_of_parts(v: (int, int))
    requires
        v != (0int, 0int),
    ensures
        norm_sq(v) > 0,
        is_unit_part(if v.0 < 0 { -unit_of(v).0 } else { unit_of(v).0 }, v.0, norm_sq(v)),
        is_unit_part(if v.1 < 0 { -unit_of(v).1 } else { unit_of(v).1 }, v.1, norm_sq(v)),
{
    let q = norm_sq(v);
    assert(v.0 * v.0 >= 0 && v.1 * v.1 >= 0) by (nonlinear_arith);
    assert(v.0 * v.0 > 0 || v.1 * v.1 > 0) by (nonlinear_arith)
        requires
            v.0 != 0 || v.1 != 0,
    ;
    lemma_unit_part_exists(v.0, q);
    lemma_unit_part_exists(v.1, q);
}

/// A non-zero vector turned to unit length has squared length `UNIT²`, short
/// of it by less than `4 · UNIT + 2` for the rounding of its two components.
pub proof fn lemma_unit_length(v: (int, int))
    requires
        v != (0int, 0int),
    ensures
        UNIT * UNIT - 4 * UNIT - 2 < norm_sq(unit_of(v)) <= UNIT * UNIT,
{
    lemma_unit_of_parts(v);
    let q = norm_sq(v);
    let u = unit_of(v);
    let mx = if v.0 < 0 { -u.0 } else { u.0 };
    let my = if v.1 < 0 { -u.1 } else { u.1 };
    let uu = UNIT * UNIT;
    assert(mx * mx == u.0 * u.0 && my * my == u.1 * u.1) by (nonlinear_arith)
        requires
            mx == u.0 || mx == -u.0,
            my == u.1 || my == -u.1,
    ;
    assert(mx * mx + my * my <= uu) by (nonlinear_arith)
        requires
            q > 0,
            q == v.0 * v.0 + v.1 * v.1,
            mx * mx * q <= v.0 * v.0 * uu,
            my * my * q <= v.1 * v.1 * uu,
    ;
    assert((mx + 1) * (mx + 1) + (my + 1) * (my + 1) > uu) by (nonlinear_arith)
        requires
            q > 0,
            q == v.0 * v.0 + v.1 * v.1,
            (mx + 1) * (mx + 1) * q > v.0 * v.0 * uu,
            (my + 1) * (my + 1) * q > v.1 * v.1 * uu,
    ;
    assert(mx <= UNIT && my <= UNIT) by (nonlinear_arith)
        requires
            mx >= 0,
            my >= 0,
            mx * mx + my * my <= UNIT * UNIT,
            UNIT > 0,
    ;
    assert(mx * mx + my * my > uu - 4 * UNIT - 2) by (nonlinear_arith)
        requires
            (mx + 1) * (mx + 1) + (my + 1) * (my + 1) > uu,
            0 <= mx <= UNIT,
            0 <= my <= UNIT,
    ;
}

/// A vector whose squared length is exactly `UNIT²` is its own unit vector.
pub proof fn lemma_unit_of_unit(v: (int, int))
    requires
        norm_sq(v) == UNIT * UNIT,
    ensures
        unit_of(v) == v,
{
    let q = norm_sq(v);
    assert(v != (0int, 0int));
    let ax = if v.0 < 0 { -v.0 } else { v.0 };
    let ay = if v.1 < 0 { -v.1 } else { v.1 };
    assert(ax * ax == v.0 * v.0 && ay * ay == v.1 * v.1) by (nonlinear_arith)
        requires
            ax == v.0 || ax == -v.0,
            ay == v.1 || ay == -v.1,
    ;
    assert(is_unit_part(ax, v.0, q) && is_unit_part(ay, v.1, q)) by (nonlinear_arith)
        requires
            q == UNIT * UNIT,
            UNIT > 0,
            ax >= 0,
            ay >= 0,
            ax * ax == v.0 * v.0,
            ay * ay == v.1 * v.1,
    {
        assert(ax * ax * q == v.0 * v.0 * (UNIT * UNIT));
        assert((ax + 1) * (ax + 1) > ax * ax);
        assert(ay * ay * q == v.1 * v.1 * (UNIT * UNIT));
        assert((ay + 1) * (ay + 1) > ay * ay);
    }
    lemma_unit_part_is(ax, v.0, q);
    lemma_unit_part_is(ay, v.1, q);
}

/// Magnitude of one component of a unit-length vector, by bisection.
fn unit_magnitude(c: i128, q: i128) -> (m: i64)
    requires
        0 <= c,
        c * c <= q,
        0 < q <= 2 * STEER_MAX * STEER_MAX,
    ensures
        is_unit_part(m as int, c as int, q as int),
        0 <= m <= UNIT,
{
    let unit: i128 = 65536;
    assert(unit * unit == 0x1_0000_0000);
    assert(c * c * (unit * unit) <= q * (unit * unit)) by (nonlinear_arith)
        requires
            c * c <= q,
    ;
    assert(q * (unit * unit) <= 2 * STEER_MAX * STEER_MAX * (unit * unit)) by (nonlinear_arith)
        requires
            q <= 2 * STEER_MAX * STEER_MAX,
    ;
    let target: i128 = c * c * (unit * unit);
    let mut lo: i128 = 0;
    let mut hi: i128 = unit + 1;
    assert(hi * hi * q > target) by (nonlinear_arith)
        requires
            hi == unit + 1,
            unit > 0,
            q > 0,
            c * c <= q,
            target == c * c * (unit * unit),
    ;
    while lo + 1 < hi
        invariant
            0 <= lo < hi <= unit + 1,
            unit == UNIT,
            0 < q <= 2 * STEER_MAX * STEER_MAX,
            target == c * c * (unit * unit),
            lo * lo * q <= target,
            hi * hi * q > target,
        decreases hi - lo,
    {
        let mid: i128 = lo + (hi - lo) / 2;
        assert(mid * mid * q <= 0x1_0002_0001 * (2 * STEER_MAX * STEER_MAX)) by (nonlinear_arith)
            requires
                0 <= mid <= 65537,
                0 < q <= 2 * STEER_MAX * STEER_MAX,
        ;
        assert(0 <= mid * mid <= 0x1_0002_0001) by (nonlinear_arith)
            requires
                0 <= mid <= 65537,
        ;
        if mid * mid * q <= target {
            lo = mid;
        } else {
            hi = mid;
        }
    }
    assert(lo <= unit);
    lo as i64
}

/// The vector of length `UNIT` along `v`, or zero when `v` is zero.
pub fn normalize(v: Vec2) -> (r: Vec2)
    requires
        bounded(v@, STEER_MAX as int),
    ensures
        r@ == unit_of(v@),
        bounded(r@, UNIT as int),
{
    if v.x == 0 && v.y == 0 {
        return Vec2::zeros();
    }
    let x = v.x as i128;
    let y = v.y as i128;
    assert(x * x <= STEER_MAX * STEER_MAX && y * y <= STEER_MAX * STEER_MAX) by (nonlinear_arith)
        requires
            -STEER_MAX <= x <= STEER_MAX,
            -STEER_MAX <= y <= STEER_MAX,
    ;
    assert(x * x > 0 || y * y > 0) by (nonlinear_arith)
        requires
            x != 0 || y != 0,
    ;
    assert(x * x >= 0 && y * y >= 0) by (nonlinear_arith);
    let q: i128 = x * x + y * y;
    let ax: i128 = if x < 0 {
        -x
    } else {
        x
    };
    let ay: i128 = if y < 0 {
        -y
    } else {
        y
    };
    assert(ax * ax == x * x && ay * ay == y * y) by (nonlinear_arith)
        requires
            ax == x || ax == -x,
            ay == y || ay == -y,
    ;
    let mx = unit_magnitude(ax, q);
    let my = unit_magnitude(ay, q);
    proof {
        assert(q == norm_sq(v@));
        lemma_unit_part_is(mx as int, x as int, q as int);
        lemma_unit_part_is(my as int, y as int, q as int);
    }
    Vec2 {
        x: if v.x < 0 {
            -mx
        } else {
            mx
        },
        y: if v.y < 0 {
            -my
        } else {
            my
        },
    }
}

} // verus!
