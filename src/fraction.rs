use vstd::prelude::*;

verus! {

/// The rational number `num / den`; a zero `den` stands for no valid fraction.
#[derive(Clone, Copy, Debug, PartialEq, Eq, Structural)]
pub struct Fraction {
    pub num: i64,
    pub den: u64,
}

/// `f` lies in the half-open interval (0, 1].
pub open spec fn in_unit_interval(f: Fraction) -> bool {
    f.den > 0 && 0 < f.num && f.num as int <= f.den as int
}

/// `f` is a well-formed fraction that is not negative.
pub open spec fn is_non_negative(f: Fraction) -> bool {
    f.den > 0 && f.num >= 0
}

/// `f` is a well-formed fraction in [0, 1].
pub open spec fn is_fee_fraction(f: Fraction) -> bool {
    f.den > 0 && 0 <= f.num && f.num as int <= f.den as int
}

/// The decay that is applied for a configured decay fraction.
pub open spec fn effective_decay(f: Fraction) -> Fraction {
    if in_unit_interval(f) {
        f
    } else {
        Fraction { num: 1, den: 1 }
    }
}

/// `floor(amount * f)` for a non-negative fraction.
pub open spec fn scaled_amount(amount: int, f: Fraction) -> int {
    (amount * f.num) / (f.den as int)
}

/// A fraction in [0, 1] of a non-negative amount is at most the amount.
pub proof fn lemma_scaled_at_most(amount: int, f: Fraction)
    requires
        0 <= amount,
        is_fee_fraction(f),
    ensures
        0 <= scaled_amount(amount, f) <= amount,
{
    let n = f.num as int;
    let m = f.den as int;
    assert(0 <= amount * n <= amount * m) by (nonlinear_arith)
        requires
            0 <= amount,
            0 <= n <= m,
    ;
    assert(0 <= (amount * n) / m <= (amount * m) / m) by (nonlinear_arith)
        requires
            0 <= amount * n <= amount * m,
            0 < m,
    ;
    assert((amount * m) / m == amount) by (nonlinear_arith)
        requires
            0 < m,
    ;
}

/// Scaling by exactly 1 keeps an amount.
pub proof fn lemma_scaled_by_one(amount: int)
    ensures
        scaled_amount(amount, Fraction { num: 1, den: 1 }) == amount,
{
}

/// The exact fraction 1.
pub fn one() -> (r: Fraction)
    ensures
        r == (Fraction { num: 1, den: 1 }),
{
    Fraction { num: 1, den: 1 }
}

/// A decay fraction outside (0, 1] is replaced by exactly 1.
pub fn clamp_decay(f: Fraction) -> (r: Fraction)
    ensures
        r == effective_decay(f),
        in_unit_interval(r),
        !in_unit_interval(f) ==> r == (Fraction { num: 1, den: 1 }),
{
    if f.den > 0 && 0 < f.num && f.num as u64 <= f.den {
        f
    } else {
        one()
    }
}

/// `floor(amount * f)`, computed without overflow.
pub fn scale_amount(amount: u64, f: Fraction) -> (r: u128)
    requires
        is_non_negative(f),
    ensures
        r as int == scaled_amount(amount as int, f),
{
    let a = amount as u128;
    let n = f.num as u128;
    proof {
        assert(a * n <= 0xffff_ffff_ffff_ffffu128 * 0x7fff_ffff_ffff_ffffu128) by (nonlinear_arith)
            requires
                a <= 0xffff_ffff_ffff_ffffu128,
                n <= 0x7fff_ffff_ffff_ffffu128,
        ;
    }
    (a * n) / (f.den as u128)
}

/// `floor(amount * d)` for a decay `d` in (0, 1]; never more than `amount`.
pub fn apply_decay(amount: u64, d: Fraction) -> (r: u64)
    requires
        in_unit_interval(d),
    ensures
        r as int == scaled_amount(amount as int, d),
        r <= amount,
{
    let s = scale_amount(amount, d);
    proof {
        lemma_scaled_at_most(amount as int, d);
    }
    s as u64
}

} // verus!
