//! Fixed-point scalars and small vectors used for axis values.
//!
//! An axis reading of `1.0` is represented by `FX_SCALE` raw units. All
//! arithmetic saturates at the `i64` range, so no operation ever panics.

use vstd::prelude::*;
use vstd::arithmetic::div_mod::lemma_div_is_ordered;
use vstd::arithmetic::div_mod::lemma_div_multiples_vanish;
use vstd::arithmetic::div_mod::lemma_div_pos_is_pos;
use vstd::arithmetic::div_mod::lemma_fundamental_div_mod;
use vstd::arithmetic::div_mod::lemma_mod_division_less_than_divisor;

verus! {

/// Raw units in one whole unit of a [`Fixed`] value.
pub const FX_SCALE: i64 = 1_000_000;

/// Saturates a mathematical integer to the `i64` range.
pub open spec fn sat64(x: int) -> int {
    if x > i64::MAX as int {
        i64::MAX as int
    } else if x < i64::MIN as int {
        i64::MIN as int
    } else {
        x
    }
}

/// Integer division truncating toward zero, as Rust's `/` does.
pub open spec fn tdiv(n: int, d: int) -> int
    recommends
        d > 0,
{
    if n >= 0 {
        n / d
    } else {
        -((-n) / d)
    }
}

/// What adding two fixed-point values yields.
pub open spec fn fx_add_spec(a: int, b: int) -> int {
    sat64(a + b)
}

/// What subtracting two fixed-point values yields.
pub open spec fn fx_sub_spec(a: int, b: int) -> int {
    sat64(a - b)
}

/// What negating a fixed-point value yields.
pub open spec fn fx_neg_spec(a: int) -> int {
    sat64(-a)
}

/// What multiplying two fixed-point values yields: the raw product scaled
/// back down, truncated toward zero, saturated to the `i64` range.
pub open spec fn fx_mul_spec(a: int, b: int) -> int {
    sat64(tdiv(a * b, FX_SCALE as int))
}

/// A fixed-point scalar with `FX_SCALE` raw units to one.
#[derive(Clone, Copy, Debug, PartialEq, Eq, Structural, Hash)]
pub struct Fixed {
    raw: i64,
}

impl View for Fixed {
    type V = int;

    closed spec fn view(&self) -> int {
        self.raw as int
    }
}

impl Fixed {
    /// The value zero.
    pub fn zero() -> (r: Self)
        ensures
            r@ == 0,
    {
        Fixed { raw: 0 }
    }

    /// The value one.
    pub fn one() -> (r: Self)
        ensures
            r@ == FX_SCALE as int,
    {
        Fixed { raw: FX_SCALE }
    }

    /// Builds a value from raw units.
    pub fn from_raw(raw: i64) -> (r: Self)
        ensures
            r@ == raw as int,
    {
        Fixed { raw }
    }

    /// Builds a whole number, saturating at the representable range.
    pub fn from_int(n: i64) -> (r: Self)
        ensures
            r@ == sat64(n * FX_SCALE as int),
    {
        match n.checked_mul(FX_SCALE) {
            Some(raw) => Fixed { raw },
            None => {
                if n < 0 {
                    Fixed { raw: i64::MIN }
                } else {
                    Fixed { raw: i64::MAX }
                }
            },
        }
    }

    /// The raw units of this value.
    pub fn raw(self) -> (r: i64)
        ensures
            r as int == self@,
    {
        self.raw
    }

    /// Saturating addition.
    pub fn add(self, other: Self) -> (r: Self)
        ensures
            r@ == fx_add_spec(self@, other@),
    {
        let wide: i128 = self.raw as i128 + other.raw as i128;
        Fixed { raw: narrow64(wide) }
    }

    /// Saturating subtraction.
    pub fn sub(self, other: Self) -> (r: Self)
        ensures
            r@ == fx_sub_spec(self@, other@),
    {
        let wide: i128 = self.raw as i128 - other.raw as i128;
        Fixed { raw: narrow64(wide) }
    }

    /// Saturating negation.
    pub fn neg(self) -> (r: Self)
        ensures
            r@ == fx_neg_spec(self@),
    {
        if self.raw == i64::MIN {
            Fixed { raw: i64::MAX }
        } else {
            Fixed { raw: -self.raw }
        }
    }

    /// Fixed-point multiplication, truncating toward zero and saturating.
    pub fn mul(self, other: Self) -> (r: Self)
        ensures
            r@ == fx_mul_spec(self@, other@),
    {
        let negative: bool = (self.raw < 0) != (other.raw < 0);
        let ma: u128 = mag64(self.raw);
        let mb: u128 = mag64(other.raw);
        proof {
            assert(ma * mb <= 0x4000_0000_0000_0000_0000_0000_0000_0000) by (nonlinear_arith)
                requires
                    0 <= ma <= 0x8000_0000_0000_0000,
                    0 <= mb <= 0x8000_0000_0000_0000,
            ;
        }
        let q: u128 = (ma * mb) / (FX_SCALE as u128);
        proof {
            lemma_mag_product_div(self.raw as int, other.raw as int, FX_SCALE as int);
        }
        from_mag(q, negative)
    }
}

/// The fixed-point value with the given raw units, at the spec level.
pub closed spec fn fx_raw(raw: int) -> Fixed {
    Fixed { raw: raw as i64 }
}

/// The pair with the given raw units, at the spec level.
pub open spec fn vec2_raw(x: int, y: int) -> Vec2 {
    Vec2 { x: fx_raw(x), y: fx_raw(y) }
}

/// The triple with the given raw units, at the spec level.
pub open spec fn vec3_raw(x: int, y: int, z: int) -> Vec3 {
    Vec3 { x: fx_raw(x), y: fx_raw(y), z: fx_raw(z) }
}

/// `fx_raw` inverts the view for values in the `i64` range.
pub broadcast proof fn lemma_fx_raw(raw: int)
    requires
        i64::MIN as int <= raw <= i64::MAX as int,
    ensures
        (#[trigger] fx_raw(raw))@ == raw,
{
}

/// The view of a fixed-point scalar lies in the `i64` range.
pub broadcast proof fn lemma_fixed_bounds(x: Fixed)
    ensures
        i64::MIN as int <= #[trigger] x@ <= i64::MAX as int,
{
}

/// Two fixed-point scalars are equal exactly when their views are.
pub broadcast proof fn lemma_fixed_view_injective(a: Fixed, b: Fixed)
    ensures
        (#[trigger] a@ == #[trigger] b@) <==> a == b,
{
}

/// Two pairs are equal exactly when their views are.
pub broadcast proof fn lemma_vec2_view_injective(a: Vec2, b: Vec2)
    ensures
        (#[trigger] a@ == #[trigger] b@) <==> a == b,
{
    lemma_fixed_view_injective(a.x, b.x);
    lemma_fixed_view_injective(a.y, b.y);
}

/// Two triples are equal exactly when their views are.
pub broadcast proof fn lemma_vec3_view_injective(a: Vec3, b: Vec3)
    ensures
        (#[trigger] a@ == #[trigger] b@) <==> a == b,
{
    lemma_fixed_view_injective(a.x, b.x);
    lemma_fixed_view_injective(a.y, b.y);
    lemma_fixed_view_injective(a.z, b.z);
}

/// Saturates a wide intermediate back to `i64`.
fn narrow64(x: i128) -> (r: i64)
    ensures
        r as int == sat64(x as int),
{
    if x > i64::MAX as i128 {
        i64::MAX
    } else if x < i64::MIN as i128 {
        i64::MIN
    } else {
        x as i64
    }
}

/// The magnitude of an `i64`, widened so that `-i64::MIN` is representable.
fn mag64(x: i64) -> (r: u128)
    ensures
        r as int == if x >= 0 {
            x as int
        } else {
            -(x as int)
        },
{
    if x >= 0 {
        x as u128
    } else {
        (-(x as i128)) as u128
    }
}

/// Rebuilds a signed saturated value from a magnitude and a sign.
fn from_mag(mag: u128, negative: bool) -> (r: Fixed)
    ensures
        r@ == sat64(
            if negative {
                -(mag as int)
            } else {
                mag as int
            },
        ),
{
    if negative {
        if mag > 9_223_372_036_854_775_808u128 {
            Fixed { raw: i64::MIN }
        } else {
            Fixed { raw: narrow64(-(mag as i128)) }
        }
    } else {
        if mag > i64::MAX as u128 {
            Fixed { raw: i64::MAX }
        } else {
            Fixed { raw: mag as i64 }
        }
    }
}

/// A pair of fixed-point scalars, used for 2D axis values.
#[derive(Clone, Copy, Debug, PartialEq, Eq, Structural, Hash)]
pub struct Vec2 {
    pub x: Fixed,
    pub y: Fixed,
}

impl View for Vec2 {
    type V = (int, int);

    open spec fn view(&self) -> (int, int) {
        (self.x@, self.y@)
    }
}

impl Vec2 {
    /// Builds a pair from its components.
    pub fn new(x: Fixed, y: Fixed) -> (r: Self)
        ensures
            r@ == (x@, y@),
    {
        Vec2 { x, y }
    }

    /// The zero vector.
    pub fn zero() -> (r: Self)
        ensures
            r@ == (0int, 0int),
    {
        Vec2 { x: Fixed::zero(), y: Fixed::zero() }
    }

    /// Component-wise saturating addition.
    pub fn add(self, other: Self) -> (r: Self)
        ensures
            r@ == (fx_add_spec(self@.0, other@.0), fx_add_spec(self@.1, other@.1)),
    {
        Vec2 { x: self.x.add(other.x), y: self.y.add(other.y) }
    }
}

/// A triple of fixed-point scalars, used for 3D axis values.
#[derive(Clone, Copy, Debug, PartialEq, Eq, Structural, Hash)]
pub struct Vec3 {
    pub x: Fixed,
    pub y: Fixed,
    pub z: Fixed,
}

impl View for Vec3 {
    type V = (int, int, int);

    open spec fn view(&self) -> (int, int, int) {
        (self.x@, self.y@, self.z@)
    }
}

impl Vec3 {
    /// Builds a triple from its components.
    pub fn new(x: Fixed, y: Fixed, z: Fixed) -> (r: Self)
        ensures
            r@ == (x@, y@, z@),
    {
        Vec3 { x, y, z }
    }

    /// The zero vector.
    pub fn zero() -> (r: Self)
        ensures
            r@ == (0int, 0int, 0int),
    {
        Vec3 { x: Fixed::zero(), y: Fixed::zero(), z: Fixed::zero() }
    }

    /// Component-wise saturating addition.
    pub fn add(self, other: Self) -> (r: Self)
        ensures
            r@ == (
                fx_add_spec(self@.0, other@.0),
                fx_add_spec(self@.1, other@.1),
                fx_add_spec(self@.2, other@.2),
            ),
    {
        Vec3 { x: self.x.add(other.x), y: self.y.add(other.y), z: self.z.add(other.z) }
    }
}

/// The integer square root of `n`, rounded down.
pub open spec fn sqrt_floor(n: int) -> int
    recommends
        n >= 0,
    decreases n,
{
    if n <= 0 {
        0
    } else {
        let p = sqrt_floor(n - 1);
        if (p + 1) * (p + 1) <= n {
            p + 1
        } else {
            p
        }
    }
}

/// The integer square root of `n`, rounded up.
pub open spec fn sqrt_ceil(n: int) -> int
    recommends
        n >= 0,
{
    let p = sqrt_floor(n);
    if p * p == n {
        p
    } else {
        p + 1
    }
}

/// `sqrt_floor(n)` is the unique nonnegative integer whose square is at most
/// `n` while the next square is beyond `n`.
pub proof fn lemma_sqrt_floor_props(n: int)
    requires
        n >= 0,
    ensures
        sqrt_floor(n) >= 0,
        sqrt_floor(n) * sqrt_floor(n) <= n,
        (sqrt_floor(n) + 1) * (sqrt_floor(n) + 1) > n,
    decreases n,
{
    if n == 0 {
    } else {
        lemma_sqrt_floor_props(n - 1);
        let p = sqrt_floor(n - 1);
        if (p + 1) * (p + 1) <= n {
            assert((p + 2) * (p + 2) > n) by (nonlinear_arith)
                requires
                    p >= 0,
                    (p + 1) * (p + 1) > n - 1,
            ;
        }
    }
}

/// Any `r` with `r * r <= n < (r + 1) * (r + 1)` is `sqrt_floor(n)`.
pub proof fn lemma_sqrt_floor_unique(n: int, r: int)
    requires
        n >= 0,
        r >= 0,
        r * r <= n,
        (r + 1) * (r + 1) > n,
    ensures
        r == sqrt_floor(n),
{
    lemma_sqrt_floor_props(n);
    let s = sqrt_floor(n);
    if r < s {
        assert((r + 1) * (r + 1) <= s * s) by (nonlinear_arith)
            requires
                0 <= r < s,
        ;
    }
    if s < r {
        assert((s + 1) * (s + 1) <= r * r) by (nonlinear_arith)
            requires
                0 <= s < r,
        ;
    }
}

/// `sqrt_ceil(n)` squares to at least `n`, and is positive for positive `n`.
pub proof fn lemma_sqrt_ceil_props(n: int)
    requires
        n >= 0,
    ensures
        sqrt_ceil(n) >= 0,
        sqrt_ceil(n) * sqrt_ceil(n) >= n,
        n > 0 ==> sqrt_ceil(n) >= 1,
{
    lemma_sqrt_floor_props(n);
    let p = sqrt_floor(n);
    if p * p != n {
        assert((p + 1) * (p + 1) > n);
    } else {
        if n > 0 && p == 0 {
            assert(p * p == 0);
        }
    }
}

/// The integer square root of `n`, rounded down, by binary search.
fn isqrt(n: u128) -> (r: u64)
    ensures
        r as int == sqrt_floor(n as int),
{
    let mut lo: u64 = 0;
    let mut hi: u64 = u64::MAX;
    proof {
        assert((hi as int + 1) * (hi as int + 1) > n as int) by (nonlinear_arith)
            requires
                hi == u64::MAX,
                n <= u128::MAX,
        ;
    }
    while lo < hi
        invariant
            lo <= hi,
            (lo as int) * (lo as int) <= n as int,
            (hi as int + 1) * (hi as int + 1) > n as int,
        decreases hi - lo,
    {
        let gap: u128 = (hi - lo) as u128;
        let half: u128 = (gap + 1) / 2;
        proof {
            assert(1 <= half <= gap) by (nonlinear_arith)
                requires
                    gap >= 1,
                    half == (gap + 1) / 2,
            ;
        }
        let mid: u64 = lo + (half as u64);
        proof {
            assert((mid as int) * (mid as int) <= u128::MAX) by (nonlinear_arith)
                requires
                    mid <= u64::MAX,
            ;
        }
        let sq: u128 = (mid as u128) * (mid as u128);
        if sq <= n {
            lo = mid;
        } else {
            hi = mid - 1;
        }
    }
    proof {
        lemma_sqrt_floor_unique(n as int, lo as int);
    }
    lo
}

/// The integer square root of `n`, rounded up, by binary search.
fn isqrt_ceil(n: u128) -> (r: u64)
    requires
        n <= 0xC000_0000_0000_0000_0000_0000_0000_0000u128,
    ensures
        r as int == sqrt_ceil(n as int),
{
    let f = isqrt(n);
    proof {
        lemma_sqrt_floor_props(n as int);
        assert(f < u64::MAX) by (nonlinear_arith)
            requires
                f as int * f as int <= n as int,
                n <= 0xC000_0000_0000_0000_0000_0000_0000_0000u128,
                f <= u64::MAX,
        ;
    }
    if (f as u128) * (f as u128) == n {
        f
    } else {
        f + 1
    }
}

/// A scalar clamped to the symmetric range `[-m, m]`.
pub open spec fn clamp1_spec(a: int, m: int) -> int
    recommends
        m >= 0,
{
    if a > m {
        m
    } else if a < -m {
        -m
    } else {
        a
    }
}

/// A pair whose length is clamped to at most `m`: left unchanged when its
/// squared length is within `m * m`, otherwise each component is rescaled by
/// `m / ceil(len)`, truncating toward zero, which preserves the direction up
/// to that truncation.
pub open spec fn clamp2_spec(v: (int, int), m: int) -> (int, int)
    recommends
        m >= 0,
{
    let len2 = v.0 * v.0 + v.1 * v.1;
    if len2 <= m * m {
        v
    } else {
        (tdiv(v.0 * m, sqrt_ceil(len2)), tdiv(v.1 * m, sqrt_ceil(len2)))
    }
}

/// A triple whose length is clamped to at most `m`, as [`clamp2_spec`].
pub open spec fn clamp3_spec(v: (int, int, int), m: int) -> (int, int, int)
    recommends
        m >= 0,
{
    let len2 = v.0 * v.0 + v.1 * v.1 + v.2 * v.2;
    if len2 <= m * m {
        v
    } else {
        (
            tdiv(v.0 * m, sqrt_ceil(len2)),
            tdiv(v.1 * m, sqrt_ceil(len2)),
            tdiv(v.2 * m, sqrt_ceil(len2)),
        )
    }
}

impl Fixed {
    /// Clamps this scalar to the symmetric range `[-max, max]`.
    pub fn clamp_mag(self, max: Fixed) -> (r: Self)
        requires
            max@ >= 0,
        ensures
            r@ == clamp1_spec(self@, max@),
    {
        if self.raw > max.raw {
            max
        } else if self.raw < -max.raw {
            Fixed { raw: -max.raw }
        } else {
            self
        }
    }
}

/// Relates magnitude arithmetic to truncating division: dividing the product
/// of magnitudes equals the magnitude of `tdiv(a * b, d)`.
proof fn lemma_mag_product_div(a: int, b: int, d: int)
    requires
        d > 0,
    ensures
        ({
            let ma = if a >= 0 {
                a
            } else {
                -a
            };
            let mb = if b >= 0 {
                b
            } else {
                -b
            };
            let neg = (a < 0) != (b < 0);
            tdiv(a * b, d) == if neg {
                -((ma * mb) / d)
            } else {
                (ma * mb) / d
            }
        }),
{
    let ma = if a >= 0 {
        a
    } else {
        -a
    };
    let mb = if b >= 0 {
        b
    } else {
        -b
    };
    if a >= 0 && b >= 0 {
        assert(a * b == ma * mb) by (nonlinear_arith)
            requires
                a >= 0 && b >= 0 && ma == a && mb == b,
        ;
    } else if a < 0 && b < 0 {
        assert(a * b == ma * mb) by (nonlinear_arith)
            requires
                a < 0 && b < 0 && ma == -a && mb == -b,
        ;
    } else {
        assert(a * b == -(ma * mb)) by (nonlinear_arith)
            requires
                (a < 0) != (b < 0),
                ma == if a >= 0 {
                    a
                } else {
                    -a
                },
                mb == if b >= 0 {
                    b
                } else {
                    -b
                },
        ;
        if ma * mb == 0 {
            assert(a * b == 0);
        }
    }
}

/// A truncated rescaling `tdiv(a * m, c)` keeps `q * q * (c * c)` within
/// `(a * a) * (m * m)`, the key step of the clamp length bound.
proof fn lemma_scaled_sq(a: int, m: int, c: int)
    requires
        m >= 0,
        c >= 1,
    ensures
        ({
            let q = tdiv(a * m, c);
            q * q * (c * c) <= (a * a) * (m * m)
        }),
{
    let a0 = if a >= 0 {
        a
    } else {
        -a
    };
    lemma_mag_product_div(a, m, c);
    let q0 = (a0 * m) / c;
    let q = tdiv(a * m, c);
    assert(q == q0 || q == -q0);
    assert(a0 * m >= 0) by (nonlinear_arith)
        requires
            a0 >= 0,
            m >= 0,
    ;
    lemma_div_pos_is_pos(a0 * m, c);
    lemma_fundamental_div_mod(a0 * m, c);
    lemma_mod_division_less_than_divisor(a0 * m, c);
    assert(c * q0 <= a0 * m);
    assert(c * q0 >= 0) by (nonlinear_arith)
        requires
            c >= 1,
            q0 >= 0,
    ;
    assert((c * q0) * (c * q0) <= (a0 * m) * (a0 * m)) by (nonlinear_arith)
        requires
            0 <= c * q0 <= a0 * m,
    ;
    assert(q * q * (c * c) == (c * q0) * (c * q0)) by (nonlinear_arith)
        requires
            q == q0 || q == -q0,
    ;
    assert((a0 * m) * (a0 * m) == (a * a) * (m * m)) by (nonlinear_arith)
        requires
            a0 == a || a0 == -a,
    ;
}

/// The clamped pair's squared length never exceeds `m * m`.
pub proof fn lemma_clamp2_len_bounded(v: (int, int), m: int)
    requires
        m >= 0,
    ensures
        ({
            let r = clamp2_spec(v, m);
            r.0 * r.0 + r.1 * r.1 <= m * m
        }),
{
    let len2 = v.0 * v.0 + v.1 * v.1;
    assert(v.0 * v.0 >= 0 && v.1 * v.1 >= 0) by (nonlinear_arith);
    if len2 <= m * m {
    } else {
        lemma_sqrt_ceil_props(len2);
        let c = sqrt_ceil(len2);
        lemma_sqrt_floor_props(len2);
        assert(len2 <= c * c);
        lemma_scaled_sq(v.0, m, c);
        lemma_scaled_sq(v.1, m, c);
        let r = clamp2_spec(v, m);
        assert(r.0 == tdiv(v.0 * m, c) && r.1 == tdiv(v.1 * m, c));
        assert(r.0 * r.0 + r.1 * r.1 <= m * m) by (nonlinear_arith)
            requires
                r.0 * r.0 * (c * c) <= (v.0 * v.0) * (m * m),
                r.1 * r.1 * (c * c) <= (v.1 * v.1) * (m * m),
                v.0 * v.0 + v.1 * v.1 <= c * c,
                c >= 1,
                m >= 0,
                v.0 * v.0 >= 0,
                v.1 * v.1 >= 0,
        ;
    }
}

/// The clamped triple's squared length never exceeds `m * m`.
pub proof fn lemma_clamp3_len_bounded(v: (int, int, int), m: int)
    requires
        m >= 0,
    ensures
        ({
            let r = clamp3_spec(v, m);
            r.0 * r.0 + r.1 * r.1 + r.2 * r.2 <= m * m
        }),
{
    let len2 = v.0 * v.0 + v.1 * v.1 + v.2 * v.2;
    assert(v.0 * v.0 >= 0 && v.1 * v.1 >= 0 && v.2 * v.2 >= 0) by (nonlinear_arith);
    if len2 <= m * m {
    } else {
        lemma_sqrt_ceil_props(len2);
        let c = sqrt_ceil(len2);
        lemma_sqrt_floor_props(len2);
        assert(len2 <= c * c);
        lemma_scaled_sq(v.0, m, c);
        lemma_scaled_sq(v.1, m, c);
        lemma_scaled_sq(v.2, m, c);
        let r = clamp3_spec(v, m);
        assert(r.0 * r.0 + r.1 * r.1 + r.2 * r.2 <= m * m) by (nonlinear_arith)
            requires
                r.0 * r.0 * (c * c) <= (v.0 * v.0) * (m * m),
                r.1 * r.1 * (c * c) <= (v.1 * v.1) * (m * m),
                r.2 * r.2 * (c * c) <= (v.2 * v.2) * (m * m),
                v.0 * v.0 + v.1 * v.1 + v.2 * v.2 <= c * c,
                c >= 1,
                m >= 0,
                v.0 * v.0 >= 0,
                v.1 * v.1 >= 0,
                v.2 * v.2 >= 0,
        ;
    }
}

/// The scaled magnitude of one component stays within `m`, so rescaled
/// components fit back into the `i64` range.
proof fn lemma_component_fits(a2: int, len2: int, m: int, c: int)
    requires
        a2 >= 0,
        m >= 0,
        a2 * a2 <= len2,
        len2 <= c * c,
        c >= 1,
    ensures
        0 <= (a2 * m) / c <= m,
{
    assert(a2 <= c) by (nonlinear_arith)
        requires
            a2 >= 0,
            c >= 1,
            a2 * a2 <= c * c,
    ;
    assert(a2 * m <= c * m) by (nonlinear_arith)
        requires
            a2 <= c,
            m >= 0,
    ;
    assert(a2 * m >= 0) by (nonlinear_arith)
        requires
            a2 >= 0,
            m >= 0,
    ;
    lemma_div_pos_is_pos(a2 * m, c);
    lemma_div_is_ordered(a2 * m, c * m, c);
    lemma_div_multiples_vanish(m, c);
    assert(c * m == m * c) by (nonlinear_arith);
}

/// One rescaled component stays within `[-m, m]`.
proof fn lemma_tdiv_component_in_range(v0: int, len2: int, m: int, c: int)
    requires
        0 <= m,
        v0 * v0 <= len2,
        len2 <= c * c,
        c >= 1,
    ensures
        -m <= tdiv(v0 * m, c) <= m,
{
    let a0 = if v0 >= 0 {
        v0
    } else {
        -v0
    };
    assert(a0 * a0 <= len2) by (nonlinear_arith)
        requires
            a0 == v0 || a0 == -v0,
            v0 * v0 <= len2,
    ;
    lemma_component_fits(a0, len2, m, c);
    lemma_mag_product_div(v0, m, c);
}

/// Both components of a clamped pair stay in the `i64` range whenever the
/// input components do.
pub proof fn lemma_clamp2_in_range(v: (int, int), m: int)
    requires
        0 <= m <= i64::MAX as int,
        i64::MIN as int <= v.0 <= i64::MAX as int,
        i64::MIN as int <= v.1 <= i64::MAX as int,
    ensures
        i64::MIN as int <= clamp2_spec(v, m).0 <= i64::MAX as int,
        i64::MIN as int <= clamp2_spec(v, m).1 <= i64::MAX as int,
{
    let len2 = v.0 * v.0 + v.1 * v.1;
    assert(v.0 * v.0 >= 0 && v.1 * v.1 >= 0) by (nonlinear_arith);
    if len2 <= m * m {
    } else {
        lemma_sqrt_floor_props(len2);
        lemma_sqrt_ceil_props(len2);
        let c = sqrt_ceil(len2);
        lemma_tdiv_component_in_range(v.0, len2, m, c);
        lemma_tdiv_component_in_range(v.1, len2, m, c);
    }
}

/// All components of a clamped triple stay in the `i64` range whenever the
/// input components do.
pub proof fn lemma_clamp3_in_range(v: (int, int, int), m: int)
    requires
        0 <= m <= i64::MAX as int,
        i64::MIN as int <= v.0 <= i64::MAX as int,
        i64::MIN as int <= v.1 <= i64::MAX as int,
        i64::MIN as int <= v.2 <= i64::MAX as int,
    ensures
        i64::MIN as int <= clamp3_spec(v, m).0 <= i64::MAX as int,
        i64::MIN as int <= clamp3_spec(v, m).1 <= i64::MAX as int,
        i64::MIN as int <= clamp3_spec(v, m).2 <= i64::MAX as int,
{
    let len2 = v.0 * v.0 + v.1 * v.1 + v.2 * v.2;
    assert(v.0 * v.0 >= 0 && v.1 * v.1 >= 0 && v.2 * v.2 >= 0) by (nonlinear_arith);
    if len2 <= m * m {
    } else {
        lemma_sqrt_floor_props(len2);
        lemma_sqrt_ceil_props(len2);
        let c = sqrt_ceil(len2);
        lemma_tdiv_component_in_range(v.0, len2, m, c);
        lemma_tdiv_component_in_range(v.1, len2, m, c);
        lemma_tdiv_component_in_range(v.2, len2, m, c);
    }
}

impl Vec2 {
    /// Clamps the length of this pair to at most `max`, preserving direction
    /// up to the truncation of [`clamp2_spec`].
    pub fn clamp_len(self, max: Fixed) -> (r: Self)
        requires
            max@ >= 0,
        ensures
            r@ == clamp2_spec(self@, max@),
    {
        let mx: u128 = mag64(self.x.raw);
        let my: u128 = mag64(self.y.raw);
        proof {
            assert(mx * mx + my * my <= 0x8000_0000_0000_0000_0000_0000_0000_0000u128)
                by (nonlinear_arith)
                requires
                    mx <= 0x8000_0000_0000_0000u128,
                    my <= 0x8000_0000_0000_0000u128,
            ;
            assert((mx as int) * (mx as int) == self@.0 * self@.0) by (nonlinear_arith)
                requires
                    mx as int == self@.0 || mx as int == -self@.0,
            ;
            assert((my as int) * (my as int) == self@.1 * self@.1) by (nonlinear_arith)
                requires
                    my as int == self@.1 || my as int == -self@.1,
            ;
        }
        let len2: u128 = mx * mx + my * my;
        let m: u128 = max.raw as u128;
        proof {
            assert(m * m <= 0x4000_0000_0000_0000_0000_0000_0000_0000u128) by (nonlinear_arith)
                requires
                    m <= 0x8000_0000_0000_0000u128,
            ;
        }
        let mm: u128 = m * m;
        if len2 <= mm {
            self
        } else {
            let c: u64 = isqrt_ceil(len2);
            proof {
                lemma_sqrt_ceil_props(len2 as int);
                lemma_sqrt_floor_props(len2 as int);
                lemma_component_fits(mx as int, len2 as int, m as int, c as int);
                lemma_component_fits(my as int, len2 as int, m as int, c as int);
                assert(mx * m <= u128::MAX && my * m <= u128::MAX) by (nonlinear_arith)
                    requires
                        mx <= 0x8000_0000_0000_0000u128,
                        my <= 0x8000_0000_0000_0000u128,
                        m <= 0x8000_0000_0000_0000u128,
                ;
                lemma_mag_product_div(self@.0, max@, c as int);
                lemma_mag_product_div(self@.1, max@, c as int);
            }
            let qx: u128 = (mx * m) / (c as u128);
            let qy: u128 = (my * m) / (c as u128);
            Vec2 { x: from_mag(qx, self.x.raw < 0), y: from_mag(qy, self.y.raw < 0) }
        }
    }
}

impl Vec3 {
    /// Clamps the length of this triple to at most `max`, preserving
    /// direction up to the truncation of [`clamp3_spec`].
    pub fn clamp_len(self, max: Fixed) -> (r: Self)
        requires
            max@ >= 0,
        ensures
            r@ == clamp3_spec(self@, max@),
    {
        let mx: u128 = mag64(self.x.raw);
        let my: u128 = mag64(self.y.raw);
        let mz: u128 = mag64(self.z.raw);
        proof {
            assert(mx * mx + my * my + mz * mz <= 0xC000_0000_0000_0000_0000_0000_0000_0000u128)
                by (nonlinear_arith)
                requires
                    mx <= 0x8000_0000_0000_0000u128,
                    my <= 0x8000_0000_0000_0000u128,
                    mz <= 0x8000_0000_0000_0000u128,
            ;
            assert((mx as int) * (mx as int) == self@.0 * self@.0) by (nonlinear_arith)
                requires
                    mx as int == self@.0 || mx as int == -self@.0,
            ;
            assert((my as int) * (my as int) == self@.1 * self@.1) by (nonlinear_arith)
                requires
                    my as int == self@.1 || my as int == -self@.1,
            ;
            assert((mz as int) * (mz as int) == self@.2 * self@.2) by (nonlinear_arith)
                requires
                    mz as int == self@.2 || mz as int == -self@.2,
            ;
        }
        let len2: u128 = mx * mx + my * my + mz * mz;
        let m: u128 = max.raw as u128;
        proof {
            assert(m * m <= 0x4000_0000_0000_0000_0000_0000_0000_0000u128) by (nonlinear_arith)
                requires
                    m <= 0x8000_0000_0000_0000u128,
            ;
        }
        let mm: u128 = m * m;
        if len2 <= mm {
            self
        } else {
            let c: u64 = isqrt_ceil(len2);
            proof {
                lemma_sqrt_ceil_props(len2 as int);
                lemma_sqrt_floor_props(len2 as int);
                lemma_component_fits(mx as int, len2 as int, m as int, c as int);
                lemma_component_fits(my as int, len2 as int, m as int, c as int);
                lemma_component_fits(mz as int, len2 as int, m as int, c as int);
                assert(mx * m <= u128::MAX && my * m <= u128::MAX && mz * m <= u128::MAX)
                    by (nonlinear_arith)
                    requires
                        mx <= 0x8000_0000_0000_0000u128,
                        my <= 0x8000_0000_0000_0000u128,
                        mz <= 0x8000_0000_0000_0000u128,
                        m <= 0x8000_0000_0000_0000u128,
                ;
                lemma_mag_product_div(self@.0, max@, c as int);
                lemma_mag_product_div(self@.1, max@, c as int);
                lemma_mag_product_div(self@.2, max@, c as int);
            }
            let qx: u128 = (mx * m) / (c as u128);
            let qy: u128 = (my * m) / (c as u128);
            let qz: u128 = (mz * m) / (c as u128);
            Vec3 {
                x: from_mag(qx, self.x.raw < 0),
                y: from_mag(qy, self.y.raw < 0),
                z: from_mag(qz, self.z.raw < 0),
            }
        }
    }
}

} // verus!
