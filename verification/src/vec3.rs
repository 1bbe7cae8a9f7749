use crate::fixed::{lemma_times_zero, magnitude, trunc_div, Fixed};
use vstd::prelude::*;

verus! {

/// A vector of three fixed-point components.
#[derive(Clone, Copy, Debug, PartialEq, Eq, Structural)]
pub struct Vec3 {
    pub x: Fixed,
    pub y: Fixed,
    pub z: Fixed,
}

fn square_of(raw: i64) -> (r: u128)
    ensures
        r == raw as int * raw as int,
        r <= 0x4000_0000_0000_0000_0000_0000_0000_0000,
{
    let wide: i128 = raw as i128;
    assert(0 <= wide * wide <= 0x4000_0000_0000_0000_0000_0000_0000_0000) by (nonlinear_arith)
        requires
            -0x8000_0000_0000_0000 <= wide <= 0x8000_0000_0000_0000,
    ;
    (wide * wide) as u128
}

/// The zero vector scaled is the zero vector, and any vector scaled by zero
/// is the zero vector.
pub proof fn lemma_scale_zero(v: Vec3, k: Fixed)
    ensures
        Vec3::zero().scale(k) == Vec3::zero(),
        v.scale(Fixed::zero()) == Vec3::zero(),
{
    lemma_times_zero(k);
    lemma_times_zero(v.x);
    lemma_times_zero(v.y);
    lemma_times_zero(v.z);
}

/// `r` is the square root of `n` rounded up: the least number that is not
/// negative and whose square is `n` or more.
pub open spec fn is_root_up(n: int, r: int) -> bool {
    &&& r >= 0
    &&& r * r >= n
    &&& r > 0 ==> (r - 1) * (r - 1) < n
}

/// The square root of `n` rounded up.
pub open spec fn root_up(n: int) -> int {
    choose|r: int| is_root_up(n, r)
}

/// Squares keep the order of numbers that are not negative.
pub proof fn lemma_square_order(a: int, b: int)
    requires
        0 <= a <= b,
    ensures
        a * a <= b * b,
{
    assert(a * a <= b * b) by (nonlinear_arith)
        requires
            0 <= a <= b,
    ;
}

/// A number has one square root rounded up at most.
pub proof fn lemma_root_up_unique(n: int, r: int)
    requires
        is_root_up(n, r),
    ensures
        root_up(n) == r,
{
    let other = root_up(n);
    if other < r {
        lemma_square_order(other, r - 1);
    } else if other > r {
        lemma_square_order(r, other - 1);
    }
}

/// Every number has a square root rounded up.
pub proof fn lemma_root_up_exists(n: int)
    ensures
        is_root_up(n, root_up(n)),
    decreases n,
{
    if n <= 0 {
        assert(is_root_up(n, 0));
    } else {
        lemma_root_up_exists(n - 1);
        let r = root_up(n - 1);
        if r * r >= n {
            assert(is_root_up(n, r));
        } else {
            assert((r + 1) * (r + 1) >= n) by (nonlinear_arith)
                requires
                    r >= 0,
                    r * r >= n - 1,
            ;
            assert(is_root_up(n, r + 1));
        }
    }
}

/// A quotient rounded toward zero, squared and scaled back by the square of
/// the divisor, is no more than the square of what was divided.
pub proof fn lemma_quotient_square(a: int, d: int)
    requires
        d > 0,
    ensures
        trunc_div(a, d) * trunc_div(a, d) * (d * d) <= a * a,
        magnitude(trunc_div(a, d)) <= magnitude(a),
{
    let m = magnitude(a);
    let q = m / d;
    assert(0 <= q * d <= m && q <= m) by (nonlinear_arith)
        requires
            m >= 0,
            d > 0,
            q == m / d,
    ;
    assert((q * d) * (q * d) <= m * m) by (nonlinear_arith)
        requires
            0 <= q * d <= m,
    ;
    assert(q * q * (d * d) == (q * d) * (q * d)) by (nonlinear_arith);
    assert(trunc_div(a, d) * trunc_div(a, d) == q * q) by (nonlinear_arith)
        requires
            trunc_div(a, d) == q || trunc_div(a, d) == -q,
    ;
    assert(a * a == m * m) by (nonlinear_arith)
        requires
            m == a || m == -a,
    ;
}

/// Largest sum of three squares of raw values.
pub const MOST_SQUARED: u128 = 0xc000_0000_0000_0000_0000_0000_0000_0000;

/// The square root of `n` rounded up, by bisection.
pub fn find_root_up(n: u128) -> (r: u128)
    requires
        n <= MOST_SQUARED,
    ensures
        r == root_up(n as int),
        is_root_up(n as int, r as int),
        r <= 0xffff_ffff_ffff_ffff,
{
    if n == 0 {
        proof {
            lemma_root_up_unique(0, 0);
        }
        return 0;
    }
    let mut low: u128 = 0;
    let mut high: u128 = 0xffff_ffff_ffff_ffff;
    assert(high * high == 0xffff_ffff_ffff_fffe_0000_0000_0000_0001) by (nonlinear_arith)
        requires
            high == 0xffff_ffff_ffff_ffff,
    ;
    while high - low > 1
        invariant
            low < high <= 0xffff_ffff_ffff_ffff,
            low * low < n,
            high * high >= n,
        decreases high - low,
    {
        let middle: u128 = low + (high - low) / 2;
        assert(middle * middle <= 0xffff_ffff_ffff_ffff * 0xffff_ffff_ffff_ffff) by (nonlinear_arith)
            requires
                0 <= middle <= 0xffff_ffff_ffff_ffff,
        ;
        if middle * middle >= n {
            high = middle;
        } else {
            low = middle;
        }
    }
    proof {
        lemma_root_up_unique(n as int, high as int);
    }
    high
}

impl Vec3 {
    pub open spec fn spec_zero() -> Vec3 {
        Vec3 { x: Fixed::zero(), y: Fixed::zero(), z: Fixed::zero() }
    }

    pub open spec fn spec_plus(self, rhs: Vec3) -> Vec3 {
        Vec3 { x: self.x.plus(rhs.x), y: self.y.plus(rhs.y), z: self.z.plus(rhs.z) }
    }

    pub open spec fn spec_minus(self, rhs: Vec3) -> Vec3 {
        Vec3 { x: self.x.minus(rhs.x), y: self.y.minus(rhs.y), z: self.z.minus(rhs.z) }
    }

    pub open spec fn spec_scale(self, k: Fixed) -> Vec3 {
        Vec3 { x: self.x.times(k), y: self.y.times(k), z: self.z.times(k) }
    }

    /// The point at share `t` of the way from `self` to `rhs`: `self` plus
    /// `t` times the difference. `t` may lie outside zero to one.
    pub open spec fn spec_lerp(self, rhs: Vec3, t: Fixed) -> Vec3 {
        self.plus(rhs.minus(self).scale(t))
    }

    pub open spec fn spec_is_zero(self) -> bool {
        self.x.is_zero() && self.y.is_zero() && self.z.is_zero()
    }

    /// Square of the length, in squared raw units.
    pub open spec fn length_squared(self) -> int {
        self.x@ * self.x@ + self.y@ * self.y@ + self.z@ * self.z@
    }

    /// Whether the vector is strictly longer than `len`. Every vector is
    /// longer than a negative length.
    pub open spec fn spec_longer_than(self, len: Fixed) -> bool {
        len@ < 0 || self.length_squared() > len@ * len@
    }

    /// The vector shortened to the length `max` where it is longer: each
    /// component times `max` over the length, with the length rounded up and
    /// the quotient rounded toward zero. Only the magnitude of `max` decides
    /// whether the vector is longer; a negative `max` turns a longer vector
    /// around.
    pub open spec fn spec_clamp_length_max(self, max: Fixed) -> Vec3 {
        if self.length_squared() > max@ * max@ {
            let length = root_up(self.length_squared());
            Vec3 {
                x: Fixed::of(trunc_div(self.x@ * max@, length)),
                y: Fixed::of(trunc_div(self.y@ * max@, length)),
                z: Fixed::of(trunc_div(self.z@ * max@, length)),
            }
        } else {
            self
        }
    }

    /// A vector shortened to `max` is no longer than `max`.
    pub proof fn lemma_clamp_is_short(self, max: Fixed)
        ensures
            self.clamp_length_max(max).length_squared() <= max@ * max@,
    {
        let n = self.length_squared();
        if n > max@ * max@ {
            assert(max@ * max@ >= 0) by (nonlinear_arith);
            lemma_root_up_exists(n);
            let length = root_up(n);
            assert(length > 0) by {
                if length == 0 {
                    assert(length * length == 0) by (nonlinear_arith)
                        requires
                            length == 0,
                    ;
                }
            }
            let square = length * length;
            let x = trunc_div(self.x@ * max@, length);
            let y = trunc_div(self.y@ * max@, length);
            let z = trunc_div(self.z@ * max@, length);
            lemma_quotient_square(self.x@ * max@, length);
            lemma_quotient_square(self.y@ * max@, length);
            lemma_quotient_square(self.z@ * max@, length);
            let most = max@ * max@;
            assert((self.x@ * max@) * (self.x@ * max@) == self.x@ * self.x@ * most)
                by (nonlinear_arith)
                requires
                    most == max@ * max@,
            ;
            assert((self.y@ * max@) * (self.y@ * max@) == self.y@ * self.y@ * most)
                by (nonlinear_arith)
                requires
                    most == max@ * max@,
            ;
            assert((self.z@ * max@) * (self.z@ * max@) == self.z@ * self.z@ * most)
                by (nonlinear_arith)
                requires
                    most == max@ * max@,
            ;
            let sum = x * x + y * y + z * z;
            assert(sum >= 0) by (nonlinear_arith)
                requires
                    sum == x * x + y * y + z * z,
            ;
            assert(sum * square <= n * most) by (nonlinear_arith)
                requires
                    sum == x * x + y * y + z * z,
                    n == self.x@ * self.x@ + self.y@ * self.y@ + self.z@ * self.z@,
                    x * x * square <= self.x@ * self.x@ * most,
                    y * y * square <= self.y@ * self.y@ * most,
                    z * z * square <= self.z@ * self.z@ * most,
            ;
            assert(sum <= most) by (nonlinear_arith)
                requires
                    sum * square <= n * most,
                    square >= n,
                    square > 0,
                    most >= 0,
                    n >= 0,
                    sum >= 0,
            ;
            Self::lemma_narrowed_square(x);
            Self::lemma_narrowed_square(y);
            Self::lemma_narrowed_square(z);
        }
    }

    /// A number brought into the range of raw values has a square no
    /// greater than before.
    proof fn lemma_narrowed_square(q: int)
        ensures
            Fixed::of(q)@ * Fixed::of(q)@ <= q * q,
    {
        let r = Fixed::of(q)@;
        assert(r * r <= q * q) by (nonlinear_arith)
            requires
                (0 <= r <= q) || (q <= r <= 0),
        ;
    }

    /// The vector from its components.
    pub fn new(x: Fixed, y: Fixed, z: Fixed) -> (r: Vec3)
        ensures
            r == (Vec3 { x, y, z }),
    {
        Vec3 { x, y, z }
    }

    /// The zero vector.
    #[verifier::when_used_as_spec(spec_zero)]
    pub fn zero() -> (r: Vec3)
        ensures
            r == Vec3::spec_zero(),
    {
        Vec3 { x: Fixed::zero(), y: Fixed::zero(), z: Fixed::zero() }
    }

    /// Componentwise saturating sum.
    #[verifier::when_used_as_spec(spec_plus)]
    pub fn plus(self, rhs: Vec3) -> (r: Vec3)
        ensures
            r == self.spec_plus(rhs),
    {
        Vec3 { x: self.x.plus(rhs.x), y: self.y.plus(rhs.y), z: self.z.plus(rhs.z) }
    }

    /// Componentwise saturating difference.
    #[verifier::when_used_as_spec(spec_minus)]
    pub fn minus(self, rhs: Vec3) -> (r: Vec3)
        ensures
            r == self.spec_minus(rhs),
    {
        Vec3 { x: self.x.minus(rhs.x), y: self.y.minus(rhs.y), z: self.z.minus(rhs.z) }
    }

    /// Every component times `k`.
    #[verifier::when_used_as_spec(spec_scale)]
    pub fn scale(self, k: Fixed) -> (r: Vec3)
        ensures
            r == self.spec_scale(k),
    {
        Vec3 { x: self.x.times(k), y: self.y.times(k), z: self.z.times(k) }
    }

    /// Linear blend from `self` toward `rhs` by the share `t`.
    #[verifier::when_used_as_spec(spec_lerp)]
    pub fn lerp(self, rhs: Vec3, t: Fixed) -> (r: Vec3)
        ensures
            r == self.spec_lerp(rhs, t),
    {
        self.plus(rhs.minus(self).scale(t))
    }

    /// Whether every component is exactly zero.
    #[verifier::when_used_as_spec(spec_is_zero)]
    pub fn is_zero(self) -> (r: bool)
        ensures
            r == self.spec_is_zero(),
    {
        self.x.is_zero() && self.y.is_zero() && self.z.is_zero()
    }

    /// Whether the vector is strictly longer than `len`, decided exactly on
    /// the squares.
    #[verifier::when_used_as_spec(spec_longer_than)]
    pub fn longer_than(self, len: Fixed) -> (r: bool)
        ensures
            r == self.spec_longer_than(len),
    {
        if len.raw < 0 {
            return true;
        }
        let own: u128 = square_of(self.x.raw) + square_of(self.y.raw) + square_of(self.z.raw);
        own > square_of(len.raw)
    }

    /// The vector shortened to the length `max` where it is longer; see
    /// [`Vec3::spec_clamp_length_max`].
    #[verifier::when_used_as_spec(spec_clamp_length_max)]
    pub fn clamp_length_max(self, max: Fixed) -> (r: Vec3)
        ensures
            r == self.spec_clamp_length_max(max),
    {
        let own: u128 = square_of(self.x.raw) + square_of(self.y.raw) + square_of(self.z.raw);
        if own > square_of(max.raw) {
            let length = find_root_up(own);
            Vec3 {
                x: shorten(self.x, max, length),
                y: shorten(self.y, max, length),
                z: shorten(self.z, max, length),
            }
        } else {
            self
        }
    }
}

fn shorten(part: Fixed, max: Fixed, length: u128) -> (r: Fixed)
    requires
        0 < length <= 0xffff_ffff_ffff_ffff,
    ensures
        r == Fixed::of(trunc_div(part@ * max@, length as int)),
{
    let a: i128 = part.raw as i128;
    let b: i128 = max.raw as i128;
    assert(-0x4000_0000_0000_0000_0000_0000_0000_0000 <= a * b
        <= 0x4000_0000_0000_0000_0000_0000_0000_0000) by (nonlinear_arith)
        requires
            -0x8000_0000_0000_0000 <= a <= 0x8000_0000_0000_0000,
            -0x8000_0000_0000_0000 <= b <= 0x8000_0000_0000_0000,
    ;
    let quotient: i128 = (a * b) / (length as i128);
    if quotient < i64::MIN as i128 {
        Fixed { raw: i64::MIN }
    } else if quotient > i64::MAX as i128 {
        Fixed { raw: i64::MAX }
    } else {
        Fixed { raw: quotient as i64 }
    }
}

} // verus!
