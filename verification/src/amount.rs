//! Exact decimal quantities and (possibly incomplete) monetary amounts.
//!
//! A `Decimal` is an integer mantissa scaled by a power of ten, the usual
//! exact representation for ledger quantities: `mantissa / 10^scale`. The one
//! arithmetic operation the rewrite pipeline needs, halving with negation
//! rounded to two fractional digits, is implemented and verified here.

use vstd::prelude::*;

verus! {

/// Exclusive bound on the magnitude of a decimal mantissa (2^96), the
/// customary 96-bit domain of exact decimal libraries.
pub const MANTISSA_LIMIT: i128 = 79228162514264337593543950336;

/// Largest scale (count of fractional digits) a decimal may carry.
pub const MAX_SCALE: u32 = 28;

/// An exact decimal number: `mantissa / 10^scale`.
#[derive(Clone, Copy, Debug, PartialEq, Eq, Structural)]
pub struct Decimal {
    pub mantissa: i128,
    pub scale: u32,
}

/// `10^e`.
pub open spec fn pow10(e: nat) -> nat
    decreases e,
{
    if e == 0 {
        1
    } else {
        10 * pow10((e - 1) as nat)
    }
}

/// Integer division of `n` by `d`, rounded to the nearest integer with ties
/// away from zero (round-half-up on magnitudes).
pub open spec fn div_round_half_away(n: int, d: int) -> int
    recommends
        d >= 1,
{
    if n >= 0 {
        (n + d / 2) / d
    } else {
        -(((-n) + d / 2) / d)
    }
}

/// The mantissa, at scale 2, of `d` divided by the fixed divisor minus two
/// and rounded to two fractional digits. The factor 50 is 100 (the scaling
/// to two fractional digits) over the fixed divisor 2; the divisor has no
/// configuration surface and needs none.
pub open spec fn halved_mantissa(d: Decimal) -> int {
    div_round_half_away(-50 * d.mantissa, pow10(d.scale as nat) as int)
}

/// `d / (-2)` rounded (half away from zero) to two fractional digits.
pub open spec fn spec_halve_negated_decimal(d: Decimal) -> Decimal {
    Decimal { mantissa: halved_mantissa(d) as i128, scale: 2 }
}

impl Decimal {
    /// The decimal lies in the representable domain.
    pub open spec fn wf(self) -> bool {
        -MANTISSA_LIMIT < self.mantissa < MANTISSA_LIMIT && self.scale <= MAX_SCALE
    }

    /// Halving stays in the representable domain. This always holds when the
    /// decimal has two or more fractional digits; only quantities near the
    /// top of the 96-bit domain with fewer digits fall outside it.
    pub open spec fn halvable(self) -> bool {
        self.wf() && -MANTISSA_LIMIT < halved_mantissa(self) < MANTISSA_LIMIT
    }

    pub fn new(mantissa: i128, scale: u32) -> (r: Decimal)
        ensures
            r == (Decimal { mantissa, scale }),
    {
        Decimal { mantissa, scale }
    }
}

/// Every well-formed decimal with at least two fractional digits is
/// halvable: the rounded half of such a quantity never exceeds the
/// magnitude of the quantity itself.
pub proof fn lemma_scaled_decimal_halvable(d: Decimal)
    requires
        d.wf(),
        d.scale >= 2,
    ensures
        d.halvable(),
{
    let m: int = if d.mantissa < 0 {
        -d.mantissa as int
    } else {
        d.mantissa as int
    };
    let p: int = pow10(d.scale as nat) as int;
    lemma_pow10_increases(2, d.scale as nat);
    lemma_pow10_increases(d.scale as nat, MAX_SCALE as nat);
    lemma_pow10_max();
    reveal_with_fuel(pow10, 3);
    assert(100 <= p <= 10000000000000000000000000000int);
    let x: int = 50 * m + p / 2;
    let q: int = x / p;
    vstd::arithmetic::div_mod::lemma_div_is_ordered(p, 10000000000000000000000000000, 2);
    assert(x <= 50 * (MANTISSA_LIMIT - 1) + 10000000000000000000000000000int / 2);
    vstd::arithmetic::div_mod::lemma_div_is_ordered_by_denominator(x, 100, p);
    vstd::arithmetic::div_mod::lemma_div_is_ordered(
        x,
        50 * (MANTISSA_LIMIT - 1) + 10000000000000000000000000000int / 2,
        100,
    );
    vstd::arithmetic::div_mod::lemma_div_pos_is_pos(x, p);
    assert(0 <= q < MANTISSA_LIMIT);
    if d.mantissa == 0 {
        vstd::arithmetic::div_mod::lemma_basic_div_specific_divisor(p);
    }
    assert(halved_mantissa(d) == q || halved_mantissa(d) == -q);
}

/// Halving a halvable decimal lands back in the representable domain, at
/// scale 2.
pub proof fn lemma_halve_preserves_wf(d: Decimal)
    requires
        d.halvable(),
    ensures
        spec_halve_negated_decimal(d).wf(),
{
}

/// The largest power of ten a decimal's scale can call for.
pub proof fn lemma_pow10_max()
    ensures
        pow10(MAX_SCALE as nat) == 10000000000000000000000000000,
{
    reveal_with_fuel(pow10, 29);
}

pub proof fn lemma_pow10_pos(e: nat)
    ensures
        pow10(e) >= 1,
    decreases e,
{
    if e > 0 {
        lemma_pow10_pos((e - 1) as nat);
    }
}

pub proof fn lemma_pow10_increases(a: nat, b: nat)
    requires
        a <= b,
    ensures
        pow10(a) <= pow10(b),
    decreases b,
{
    if a < b {
        lemma_pow10_increases(a, (b - 1) as nat);
        lemma_pow10_pos((b - 1) as nat);
    }
}

/// `10^e` for `e` up to `MAX_SCALE`.
pub fn pow10_u128(e: u32) -> (r: u128)
    requires
        e <= MAX_SCALE,
    ensures
        r == pow10(e as nat),
        r >= 1,
    decreases e,
{
    proof {
        lemma_pow10_increases(e as nat, MAX_SCALE as nat);
        lemma_pow10_max();
        lemma_pow10_pos(e as nat);
    }
    if e == 0 {
        1
    } else {
        proof {
            lemma_pow10_increases((e - 1) as nat, MAX_SCALE as nat);
        }
        10 * pow10_u128(e - 1)
    }
}

/// Divide by minus two and round (half away from zero) to two fractional
/// digits. Division by a fixed non-zero constant cannot fail; the result is
/// representable for every decimal admitted by `halvable`.
pub fn halve_negated_decimal(d: Decimal) -> (r: Decimal)
    requires
        d.halvable(),
    ensures
        r == spec_halve_negated_decimal(d),
        r.wf(),
        r.scale == 2,
{
    let mag: u128 = if d.mantissa < 0 {
        (-d.mantissa) as u128
    } else {
        d.mantissa as u128
    };
    let num: u128 = 50 * mag;
    let div: u128 = pow10_u128(d.scale);
    let q: u128 = (num + div / 2) / div;
    proof {
        lemma_pow10_increases(d.scale as nat, MAX_SCALE as nat);
        lemma_pow10_max();
        if d.mantissa == 0 {
            vstd::arithmetic::div_mod::lemma_basic_div_specific_divisor(div as int);
            assert(q == 0);
        }
    }
    let mantissa: i128 = if d.mantissa > 0 {
        -(q as i128)
    } else {
        q as i128
    };
    Decimal { mantissa, scale: 2 }
}

/// Mathematical model of an [`Amount`].
#[verifier::ext_equal]
pub ghost struct AmountV {
    pub num: Decimal,
    pub currency: Seq<char>,
}

/// A complete monetary amount: a quantity and its currency.
#[derive(Debug)]
pub struct Amount {
    pub num: Decimal,
    pub currency: String,
}

impl View for Amount {
    type V = AmountV;

    open spec fn view(&self) -> AmountV {
        AmountV { num: self.num, currency: self.currency@ }
    }
}

impl Clone for Amount {
    fn clone(&self) -> (r: Self)
        ensures
            r@ == self@,
    {
        Amount { num: self.num, currency: self.currency.clone() }
    }
}

/// Mathematical model of an [`IncompleteAmount`].
#[verifier::ext_equal]
pub ghost struct IncompleteAmountV {
    pub num: Option<Decimal>,
    pub currency: Option<Seq<char>>,
}

/// A monetary value that may still need inference: the quantity, the
/// currency, or both may be absent. Absence is a valid state, not an error.
#[derive(Debug)]
pub struct IncompleteAmount {
    pub num: Option<Decimal>,
    pub currency: Option<String>,
}

impl View for IncompleteAmount {
    type V = IncompleteAmountV;

    open spec fn view(&self) -> IncompleteAmountV {
        IncompleteAmountV { num: self.num, currency: self.currency.deep_view() }
    }
}

impl IncompleteAmountV {
    /// The quantity, if present, can be halved within the representable
    /// domain.
    pub open spec fn halvable(self) -> bool {
        match self.num {
            Some(d) => d.halvable(),
            None => true,
        }
    }
}

/// Halving with negation on a possibly absent quantity: an absent quantity
/// propagates unchanged, the currency is copied unchanged.
pub open spec fn spec_halve_negated(a: IncompleteAmountV) -> IncompleteAmountV {
    IncompleteAmountV {
        num: match a.num {
            Some(d) => Some(spec_halve_negated_decimal(d)),
            None => None,
        },
        currency: a.currency,
    }
}

impl Clone for IncompleteAmount {
    fn clone(&self) -> (r: Self)
        ensures
            r@ == self@,
    {
        IncompleteAmount { num: self.num, currency: clone_opt_string(&self.currency) }
    }
}

/// Clone an optional string, preserving its model.
pub fn clone_opt_string(s: &Option<String>) -> (r: Option<String>)
    ensures
        r.deep_view() == s.deep_view(),
{
    match s {
        Some(c) => Some(c.clone()),
        None => None,
    }
}

/// If the quantity is present, divide it by minus two and round to two
/// fractional digits; if it is absent, leave it absent. The currency is
/// copied unchanged in either case.
pub fn halve_negated(a: &IncompleteAmount) -> (r: IncompleteAmount)
    requires
        a@.halvable(),
    ensures
        r@ == spec_halve_negated(a@),
        a@.num is None ==> r@ == a@,
{
    let num: Option<Decimal> = match a.num {
        Some(d) => Some(halve_negated_decimal(d)),
        None => None,
    };
    IncompleteAmount { num, currency: clone_opt_string(&a.currency) }
}

} // verus!
