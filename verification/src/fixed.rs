use vstd::prelude::*;

verus! {

/// Number of raw units in one whole unit: a value carries nine decimal places.
pub const SCALE: i64 = 1_000_000_000;

/// The representable raw value nearest to `x`.
pub open spec fn saturate(x: int) -> int {
    if x < i64::MIN {
        i64::MIN as int
    } else if x > i64::MAX {
        i64::MAX as int
    } else {
        x
    }
}

/// Quotient of `n` by a positive `d`, rounded toward zero.
pub open spec fn trunc_div(n: int, d: int) -> int {
    if n >= 0 {
        n / d
    } else {
        -((-n) / d)
    }
}

/// Distance of `x` from zero.
pub open spec fn magnitude(x: int) -> int {
    if x >= 0 {
        x
    } else {
        -x
    }
}

/// A real number in decimal fixed point: `raw` counts billionths.
///
/// Every `i64` is a valid value. Arithmetic saturates at the ends of the
/// range and products round toward zero, so every operation is total.
#[derive(Clone, Copy, Debug, PartialEq, Eq, Structural)]
pub struct Fixed {
    pub raw: i64,
}

impl View for Fixed {
    type V = int;

    open spec fn view(&self) -> int {
        self.raw as int
    }
}

fn narrow(x: i128) -> (r: i64)
    ensures
        r as int == saturate(x as int),
{
    if x < i64::MIN as i128 {
        i64::MIN
    } else if x > i64::MAX as i128 {
        i64::MAX
    } else {
        x as i64
    }
}

impl Fixed {
    /// The value with raw count `saturate(x)`.
    pub open spec fn of(x: int) -> Fixed {
        Fixed { raw: saturate(x) as i64 }
    }

    pub open spec fn spec_zero() -> Fixed {
        Fixed { raw: 0 }
    }

    pub open spec fn spec_one() -> Fixed {
        Fixed { raw: SCALE }
    }

    pub open spec fn spec_from_int(n: i32) -> Fixed {
        Fixed { raw: (n as int * SCALE as int) as i64 }
    }

    pub open spec fn spec_from_nanos(nanos: u64) -> Fixed {
        Fixed::of(nanos as int)
    }

    pub open spec fn spec_plus(self, rhs: Fixed) -> Fixed {
        Fixed::of(self.raw + rhs.raw)
    }

    pub open spec fn spec_minus(self, rhs: Fixed) -> Fixed {
        Fixed::of(self.raw - rhs.raw)
    }

    pub open spec fn spec_neg(self) -> Fixed {
        Fixed::of(-(self.raw as int))
    }

    pub open spec fn spec_times(self, rhs: Fixed) -> Fixed {
        Fixed::of(trunc_div(self.raw as int * rhs.raw as int, SCALE as int))
    }

    pub open spec fn spec_over_int(self, d: i64) -> Fixed {
        Fixed::of(trunc_div(self.raw as int, d as int))
    }

    pub open spec fn spec_clamp(self, lo: Fixed, hi: Fixed) -> Fixed {
        if self.raw < lo.raw {
            lo
        } else if self.raw > hi.raw {
            hi
        } else {
            self
        }
    }

    pub open spec fn spec_is_zero(self) -> bool {
        self.raw == 0
    }

    /// Zero.
    #[verifier::when_used_as_spec(spec_zero)]
    pub fn zero() -> (r: Fixed)
        ensures
            r == Fixed::spec_zero(),
    {
        Fixed { raw: 0 }
    }

    /// One whole unit.
    #[verifier::when_used_as_spec(spec_one)]
    pub fn one() -> (r: Fixed)
        ensures
            r == Fixed::spec_one(),
    {
        Fixed { raw: SCALE }
    }

    /// The value with the given count of billionths.
    pub fn from_raw(raw: i64) -> (r: Fixed)
        ensures
            r.raw == raw,
    {
        Fixed { raw }
    }

    /// The whole number `n`.
    #[verifier::when_used_as_spec(spec_from_int)]
    pub fn from_int(n: i32) -> (r: Fixed)
        ensures
            r == Fixed::spec_from_int(n),
            r@ == n * SCALE,
    {
        let wide: i64 = n as i64;
        Fixed { raw: wide * SCALE }
    }

    /// A span of `nanos` nanoseconds, in seconds. Spans longer than the
    /// range holds become the largest value.
    #[verifier::when_used_as_spec(spec_from_nanos)]
    pub fn from_nanos(nanos: u64) -> (r: Fixed)
        ensures
            r == Fixed::spec_from_nanos(nanos),
    {
        if nanos > i64::MAX as u64 {
            Fixed { raw: i64::MAX }
        } else {
            Fixed { raw: nanos as i64 }
        }
    }

    /// Saturating sum.
    #[verifier::when_used_as_spec(spec_plus)]
    pub fn plus(self, rhs: Fixed) -> (r: Fixed)
        ensures
            r == self.spec_plus(rhs),
    {
        Fixed { raw: narrow(self.raw as i128 + rhs.raw as i128) }
    }

    /// Saturating difference.
    #[verifier::when_used_as_spec(spec_minus)]
    pub fn minus(self, rhs: Fixed) -> (r: Fixed)
        ensures
            r == self.spec_minus(rhs),
    {
        Fixed { raw: narrow(self.raw as i128 - rhs.raw as i128) }
    }

    /// Saturating negation.
    #[verifier::when_used_as_spec(spec_neg)]
    pub fn neg(self) -> (r: Fixed)
        ensures
            r == self.spec_neg(),
    {
        Fixed { raw: narrow(-(self.raw as i128)) }
    }

    /// Saturating product, rounded toward zero to the nearest billionth.
    #[verifier::when_used_as_spec(spec_times)]
    pub fn times(self, rhs: Fixed) -> (r: Fixed)
        ensures
            r == self.spec_times(rhs),
    {
        let a: i128 = self.raw as i128;
        let b: i128 = rhs.raw as i128;
        assert(-0x4000_0000_0000_0000_0000_0000_0000_0000 <= a * b
            <= 0x4000_0000_0000_0000_0000_0000_0000_0000) by (nonlinear_arith)
            requires
                -0x8000_0000_0000_0000 <= a <= 0x8000_0000_0000_0000,
                -0x8000_0000_0000_0000 <= b <= 0x8000_0000_0000_0000,
        ;
        let wide: i128 = a * b;
        Fixed { raw: narrow(wide / (SCALE as i128)) }
    }

    /// Quotient by a positive whole number, rounded toward zero.
    #[verifier::when_used_as_spec(spec_over_int)]
    pub fn over_int(self, d: i64) -> (r: Fixed)
        requires
            d > 0,
        ensures
            r == self.spec_over_int(d),
    {
        Fixed { raw: narrow(self.raw as i128 / d as i128) }
    }

    /// `self` moved into the closed range from `lo` to `hi`; `lo` wins where
    /// the range is empty.
    #[verifier::when_used_as_spec(spec_clamp)]
    pub fn clamp(self, lo: Fixed, hi: Fixed) -> (r: Fixed)
        ensures
            r == self.spec_clamp(lo, hi),
    {
        if self.raw < lo.raw {
            lo
        } else if self.raw > hi.raw {
            hi
        } else {
            self
        }
    }

    /// Whether the value is exactly zero.
    #[verifier::when_used_as_spec(spec_is_zero)]
    pub fn is_zero(self) -> (r: bool)
        ensures
            r == self.spec_is_zero(),
    {
        self.raw == 0
    }
}

/// `after` lies between zero and `before`, ends included.
pub open spec fn toward_zero(before: int, after: int) -> bool {
    &&& before >= 0 ==> 0 <= after <= before
    &&& before <= 0 ==> before <= after <= 0
}

/// A share of a value, for a share between nothing and all, lies between
/// zero and the value.
pub proof fn lemma_share_bounds(a: int, t: int)
    requires
        0 <= a,
        0 <= t <= SCALE,
    ensures
        0 <= (a * t) / (SCALE as int) <= a,
        a * t >= SCALE ==> (a * t) / (SCALE as int) >= 1,
{
    assert(0 <= a * t <= a * SCALE) by (nonlinear_arith)
        requires
            0 <= a,
            0 <= t <= SCALE,
    ;
}

/// Blending a value toward zero by a share between nothing and all moves it
/// toward zero and never past it. Where the share of its magnitude comes
/// to a raw unit or more, it comes strictly closer. Its magnitude loses the
/// share of it, rounded down.
pub proof fn lemma_blend_toward_zero(v: Fixed, t: Fixed)
    requires
        0 <= t@ <= SCALE,
    ensures
        toward_zero(v@, v.plus(Fixed::zero().minus(v).times(t))@),
        magnitude(v@) * t@ >= SCALE ==> magnitude(v.plus(Fixed::zero().minus(v).times(t))@)
            < magnitude(v@),
        v@ > i64::MIN ==> magnitude(v.plus(Fixed::zero().minus(v).times(t))@) == magnitude(v@)
            - (magnitude(v@) * t@) / (SCALE as int),
{
    let w = Fixed::zero().minus(v);
    lemma_share_bounds(magnitude(w@), t@);
    if w@ < 0 {
        assert((-w@) * t@ == -(w@ * t@)) by (nonlinear_arith);
    }
    if v@ == i64::MIN && t@ >= 1 {
        // the lowest value has no opposite: the largest stands in for it
        assert(magnitude(w@) * t@ >= SCALE) by (nonlinear_arith)
            requires
                magnitude(w@) >= SCALE,
                t@ >= 1,
        ;
    }
    if t@ == 0 {
        assert(magnitude(v@) * t@ == 0) by (nonlinear_arith)
            requires
                t@ == 0,
        ;
    }
}

/// A product with zero on either side is zero.
pub proof fn lemma_times_zero(a: Fixed)
    ensures
        a.times(Fixed::zero()) == Fixed::zero(),
        Fixed::zero().times(a) == Fixed::zero(),
{
    assert(a@ * 0 == 0) by (nonlinear_arith);
    assert(0 * a@ == 0) by (nonlinear_arith);
}

/// A product with a factor that is not negative has the sign of the other
/// factor, or is zero.
pub proof fn lemma_times_sign(a: Fixed, b: Fixed)
    requires
        b@ >= 0,
    ensures
        a@ <= 0 ==> a.times(b)@ <= 0,
        a@ >= 0 ==> a.times(b)@ >= 0,
{
    if a@ <= 0 {
        assert(a@ * b@ <= 0) by (nonlinear_arith)
            requires
                a@ <= 0,
                b@ >= 0,
        ;
    }
    if a@ >= 0 {
        assert(a@ * b@ >= 0) by (nonlinear_arith)
            requires
                a@ >= 0,
                b@ >= 0,
        ;
    }
}

/// A product with a factor no further from zero than one is no further
/// from zero than the other factor.
pub proof fn lemma_within_one(a: Fixed, b: Fixed)
    requires
        magnitude(a@) <= SCALE,
    ensures
        magnitude(a.times(b)@) <= magnitude(b@),
        magnitude(b.times(a)@) <= magnitude(b@),
{
    let m = magnitude(b@);
    let t = magnitude(a@);
    lemma_share_bounds(m, t);
    assert(magnitude(a@ * b@) == m * t && b@ * a@ == a@ * b@) by (nonlinear_arith)
        requires
            m == magnitude(b@),
            t == magnitude(a@),
    ;
}

/// A number whose square is no more than the square of a bound that is not
/// negative is no further from zero than the bound.
pub proof fn lemma_square_bounds(c: int, bound: int)
    requires
        bound >= 0,
        c * c <= bound * bound,
    ensures
        magnitude(c) <= bound,
{
    let m = magnitude(c);
    if m > bound {
        assert(m * m > bound * bound) by (nonlinear_arith)
            requires
                m > bound,
                bound >= 0,
        ;
        assert(m * m == c * c) by (nonlinear_arith)
            requires
                m == c || m == -c,
        ;
    }
}

/// Scaling by a factor that is not negative keeps a bound on the magnitude:
/// a value no further from zero than `cap` has a product no further from
/// zero than the product of `cap`, where that product is not the largest
/// value.
pub proof fn lemma_times_bounded(w: Fixed, k: Fixed, cap: Fixed)
    requires
        k@ >= 0,
        magnitude(w@) <= cap@,
        cap.times(k)@ < i64::MAX,
    ensures
        0 <= magnitude(w.times(k)@) <= cap.times(k)@,
{
    let m = magnitude(w@);
    assert(0 <= m * k@ <= cap@ * k@) by (nonlinear_arith)
        requires
            0 <= m <= cap@,
            k@ >= 0,
    ;
    if w@ < 0 {
        assert((-w@) * k@ == -(w@ * k@)) by (nonlinear_arith);
    }
}

/// Friction holds a bounded value within its bound where it takes from the
/// largest value that a push can reach at least what the push can add.
///
/// `v` is no further from zero than `cap`, the push `gain` is no further
/// from zero than `most`, and the share `t` of friction lies between nothing
/// and all. If the share of `cap` plus `most` comes to `most` or more, then
/// `v` plus `gain`, blended toward zero by `t`, is no further from zero than
/// `cap`.
pub proof fn lemma_friction_holds_cap(v: Fixed, gain: Fixed, t: Fixed, cap: Fixed, most: Fixed)
    requires
        0 <= t@ <= SCALE,
        magnitude(v@) <= cap@,
        magnitude(gain@) <= most@,
        cap@ + most@ <= i64::MAX,
        ((cap@ + most@) * t@) / (SCALE as int) >= most@,
    ensures
        magnitude(v.plus(gain).plus(Fixed::zero().minus(v.plus(gain)).times(t))@) <= cap@,
{
    let pushed = v.plus(gain);
    let top = cap@ + most@;
    let u = magnitude(pushed@);
    assert(u <= top);
    let back = Fixed::zero().minus(pushed);
    assert(magnitude(back@) == u);
    assert(0 <= u * t@ && top * t@ <= u * t@ + (top - u) * SCALE) by (nonlinear_arith)
        requires
            0 <= u <= top,
            0 <= t@ <= SCALE,
    ;
    lemma_share_bounds(u, t@);
    if back@ < 0 {
        assert((-back@) * t@ == -(back@ * t@)) by (nonlinear_arith);
    }
    assert((top * t@) / (SCALE as int) <= (u * t@) / (SCALE as int) + (top - u));
}

} // verus!
