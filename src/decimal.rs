use rust_decimal::Decimal;
use vstd::prelude::*;

verus! {

/// Largest magnitude of a decimal mantissa: `2^96 - 1`.
pub const MAX_MANTISSA: i128 = 79228162514264337593543950335;

/// Largest number of fractional digits a decimal can carry.
pub const MAX_SCALE: u32 = 28;

/// `10^n`.
pub open spec fn pow10(n: nat) -> int
    decreases n,
{
    if n == 0 {
        1
    } else {
        10 * pow10((n - 1) as nat)
    }
}

/// An exact decimal number, `mantissa / 10^scale`, in the range that a
/// 96-bit mantissa and a scale of at most 28 can hold.
#[derive(Debug, Clone, Copy, PartialEq, Eq, Structural)]
pub struct Amount {
    pub mantissa: i128,
    pub scale: u32,
}

/// Whether `v` fits in a decimal mantissa.
pub open spec fn representable(v: int) -> bool {
    -MAX_MANTISSA <= v <= MAX_MANTISSA
}

/// The larger of two scales.
pub open spec fn max_scale(a: Amount, b: Amount) -> nat {
    if a.scale >= b.scale {
        a.scale as nat
    } else {
        b.scale as nat
    }
}

/// What `Decimal::checked_add` returns when both operands are non-zero and
/// the exact sum does not fit at the larger scale: a rounded sum or `None`.
pub uninterp spec fn rounded_sum(a: Amount, b: Amount) -> Option<Amount>;

/// What `Decimal::checked_sub` returns when both operands are non-zero and
/// the exact difference does not fit at the larger scale.
pub uninterp spec fn rounded_difference(a: Amount, b: Amount) -> Option<Amount>;

impl Amount {
    /// Mantissa and scale are in the range of a decimal.
    pub open spec fn wf(self) -> bool {
        &&& representable(self.mantissa as int)
        &&& self.scale <= MAX_SCALE
    }

    /// The mantissa of this number written with `s` fractional digits
    /// (meaningful when `s` is at least the own scale).
    pub open spec fn at_scale(self, s: nat) -> int {
        self.mantissa * pow10((s - self.scale) as nat)
    }

    /// Both numbers denote the same rational value.
    pub open spec fn same_value(self, other: Amount) -> bool {
        self.at_scale(max_scale(self, other)) == other.at_scale(max_scale(self, other))
    }

    pub open spec fn spec_zero() -> Amount {
        Amount { mantissa: 0, scale: 0 }
    }

    /// The decimal `mantissa / 10^scale`.
    pub fn new(mantissa: i128, scale: u32) -> (r: Amount)
        requires
            representable(mantissa as int),
            scale <= MAX_SCALE,
        ensures
            r == (Amount { mantissa, scale }),
            r.wf(),
    {
        Amount { mantissa, scale }
    }

    /// Zero, with no fractional digits.
    pub fn zero() -> (r: Amount)
        ensures
            r == Amount::spec_zero(),
            r.wf(),
    {
        Amount { mantissa: 0, scale: 0 }
    }
}

/// The result of adding two decimals: a zero operand gives the other one back,
/// a sum that fits at the larger scale is exact and written at that scale.
pub open spec fn sum(a: Amount, b: Amount) -> Option<Amount> {
    let s = max_scale(a, b);
    let v = a.at_scale(s) + b.at_scale(s);
    if a.mantissa == 0 {
        Some(b)
    } else if b.mantissa == 0 {
        Some(a)
    } else if representable(v) {
        Some(Amount { mantissa: v as i128, scale: s as u32 })
    } else {
        rounded_sum(a, b)
    }
}

/// The result of subtracting `b` from `a`, in the same way as [`sum`].
pub open spec fn difference(a: Amount, b: Amount) -> Option<Amount> {
    let s = max_scale(a, b);
    let v = a.at_scale(s) - b.at_scale(s);
    if a.mantissa == 0 {
        Some(Amount { mantissa: (-b.mantissa) as i128, scale: b.scale })
    } else if b.mantissa == 0 {
        Some(a)
    } else if representable(v) {
        Some(Amount { mantissa: v as i128, scale: s as u32 })
    } else {
        rounded_difference(a, b)
    }
}

/// `10^(m + n) == 10^m * 10^n`, and powers of ten are positive.
pub proof fn lemma_pow10_add(m: nat, n: nat)
    ensures
        pow10(m + n) == pow10(m) * pow10(n),
        pow10(n) >= 1,
    decreases n,
{
    if n > 0 {
        lemma_pow10_add(m, (n - 1) as nat);
        assert(pow10(m + n) == 10 * pow10((m + n - 1) as nat));
        assert(pow10(m) * pow10(n) == pow10(m) * (10 * pow10((n - 1) as nat)));
        assert(pow10(m) * (10 * pow10((n - 1) as nat)) == 10 * (pow10(m) * pow10((n - 1) as nat)))
            by (nonlinear_arith);
    }
}

/// Writing a number with more fractional digits multiplies its mantissa by a
/// power of ten.
pub proof fn lemma_at_scale_lift(a: Amount, s: nat, t: nat)
    requires
        a.scale <= s <= t,
    ensures
        a.at_scale(t) == a.at_scale(s) * pow10((t - s) as nat),
        pow10((t - s) as nat) >= 1,
{
    lemma_pow10_add((s - a.scale) as nat, (t - s) as nat);
    assert(((s - a.scale) as nat) + ((t - s) as nat) == (t - a.scale) as nat);
    let p = pow10((s - a.scale) as nat);
    let q = pow10((t - s) as nat);
    assert(a.mantissa * (p * q) == (a.mantissa * p) * q) by (nonlinear_arith);
}

/// A multiple of `v` by a positive factor that fits means `v` fits.
proof fn lemma_representable_shrink(v: int, p: int)
    requires
        p >= 1,
        representable(v * p),
    ensures
        representable(v),
{
    if v > 0 {
        assert(v * p >= v) by (nonlinear_arith)
            requires
                v > 0,
                p >= 1,
        ;
    } else if v < 0 {
        assert(v * p <= v) by (nonlinear_arith)
            requires
                v < 0,
                p >= 1,
        ;
    }
}

/// Where the exact sum fits with `t` fractional digits (`t` at least both
/// scales), [`sum`] is that exact sum, at a scale no larger than the operands'.
pub proof fn lemma_sum_exact(a: Amount, b: Amount, t: nat)
    requires
        a.wf(),
        b.wf(),
        a.scale <= t,
        b.scale <= t,
        representable(a.at_scale(t) + b.at_scale(t)),
    ensures
        sum(a, b) matches Some(c) && c.wf() && c.scale <= max_scale(a, b) && c.at_scale(t)
            == a.at_scale(t) + b.at_scale(t),
{
    let s = max_scale(a, b);
    lemma_at_scale_lift(a, s, t);
    lemma_at_scale_lift(b, s, t);
    let p = pow10((t - s) as nat);
    if a.mantissa == 0 {
        assert(a.at_scale(t) == 0);
    } else if b.mantissa == 0 {
        assert(b.at_scale(t) == 0);
    } else {
        let v = a.at_scale(s) + b.at_scale(s);
        assert(a.at_scale(t) + b.at_scale(t) == v * p) by (nonlinear_arith)
            requires
                a.at_scale(t) == a.at_scale(s) * p,
                b.at_scale(t) == b.at_scale(s) * p,
                v == a.at_scale(s) + b.at_scale(s),
        ;
        lemma_representable_shrink(v, p);
        let c = Amount { mantissa: v as i128, scale: s as u32 };
        assert(c.at_scale(s) == v) by {
            assert(c.mantissa as int == v);
            assert(c.scale as nat == s);
            assert(pow10(0) == 1);
            assert(c.at_scale(s) == v * pow10(0));
        }
        lemma_at_scale_lift(c, s, t);
    }
}

/// Where the exact difference fits with `t` fractional digits, [`difference`]
/// is that exact difference, at a scale no larger than the operands'.
pub proof fn lemma_difference_exact(a: Amount, b: Amount, t: nat)
    requires
        a.wf(),
        b.wf(),
        a.scale <= t,
        b.scale <= t,
        representable(a.at_scale(t) - b.at_scale(t)),
    ensures
        difference(a, b) matches Some(c) && c.wf() && c.scale <= max_scale(a, b) && c.at_scale(t)
            == a.at_scale(t) - b.at_scale(t),
{
    let s = max_scale(a, b);
    lemma_at_scale_lift(a, s, t);
    lemma_at_scale_lift(b, s, t);
    let p = pow10((t - s) as nat);
    if a.mantissa == 0 {
        assert(a.at_scale(t) == 0);
        let c = Amount { mantissa: (-b.mantissa) as i128, scale: b.scale };
        assert(c.at_scale(t) == -b.at_scale(t)) by (nonlinear_arith)
            requires
                c.mantissa == -b.mantissa,
                c.scale == b.scale,
                c.at_scale(t) == c.mantissa * pow10((t - c.scale) as nat),
                b.at_scale(t) == b.mantissa * pow10((t - b.scale) as nat),
        ;
    } else if b.mantissa == 0 {
        assert(b.at_scale(t) == 0);
    } else {
        let v = a.at_scale(s) - b.at_scale(s);
        assert(a.at_scale(t) - b.at_scale(t) == v * p) by (nonlinear_arith)
            requires
                a.at_scale(t) == a.at_scale(s) * p,
                b.at_scale(t) == b.at_scale(s) * p,
                v == a.at_scale(s) - b.at_scale(s),
        ;
        lemma_representable_shrink(v, p);
        let c = Amount { mantissa: v as i128, scale: s as u32 };
        assert(c.at_scale(s) == v) by {
            assert(c.mantissa as int == v);
            assert(c.scale as nat == s);
            assert(pow10(0) == 1);
            assert(c.at_scale(s) == v * pow10(0));
        }
        lemma_at_scale_lift(c, s, t);
    }
}

/// Relies on `Decimal::checked_add` (exact on sums that fit at the larger
/// scale, the other operand back when one is zero), on
/// `Decimal::from_i128_with_scale` to build the operands (it panics only
/// outside the range that `wf` states), and on `Decimal::mantissa` and
/// `Decimal::scale` to read the result back.
#[verifier::external_body]
pub(crate) fn checked_sum(a: Amount, b: Amount) -> (r: Option<Amount>)
    requires
        a.wf(),
        b.wf(),
    ensures
        r == sum(a, b),
        a.mantissa != 0 && b.mantissa != 0 && !representable(
            a.at_scale(max_scale(a, b)) + b.at_scale(max_scale(a, b)),
        ) ==> r == rounded_sum(a, b),
        r matches Some(x) ==> x.wf(),
{
    let x = Decimal::from_i128_with_scale(a.mantissa, a.scale);
    let y = Decimal::from_i128_with_scale(b.mantissa, b.scale);
    match x.checked_add(y) {
        Some(d) => Some(Amount { mantissa: d.mantissa(), scale: d.scale() }),
        None => None,
    }
}

/// Relies on `Decimal::checked_sub` (exact on differences that fit at the
/// larger scale; `0 - b` is `b` negated, `a - 0` is `a`), on
/// `Decimal::from_i128_with_scale` to build the operands, and on
/// `Decimal::mantissa` and `Decimal::scale` to read the result back.
#[verifier::external_body]
pub(crate) fn checked_difference(a: Amount, b: Amount) -> (r: Option<Amount>)
    requires
        a.wf(),
        b.wf(),
    ensures
        r == difference(a, b),
        a.mantissa != 0 && b.mantissa != 0 && !representable(
            a.at_scale(max_scale(a, b)) - b.at_scale(max_scale(a, b)),
        ) ==> r == rounded_difference(a, b),
        r matches Some(x) ==> x.wf(),
{
    let x = Decimal::from_i128_with_scale(a.mantissa, a.scale);
    let y = Decimal::from_i128_with_scale(b.mantissa, b.scale);
    match x.checked_sub(y) {
        Some(d) => Some(Amount { mantissa: d.mantissa(), scale: d.scale() }),
        None => None,
    }
}

} // verus!
