use vstd::prelude::*;
use crate::error::ContractError;

verus! {

/// Atomic units in one whole `Decimal` (a `Decimal` has 18 fractional digits).
pub const DECIMAL_ATOMICS: u128 = 1_000_000_000_000_000_000;

/// The scale, 10^9, at which the exchange's decimal helpers compute.
pub const DECIMAL_FRACTIONAL: u128 = 1_000_000_000;

/// An unsigned 128-bit token amount.
#[derive(Clone, Copy, Debug, PartialEq, Eq, Structural)]
pub struct Uint128(pub u128);

/// A fixed-point number with 18 fractional digits: `Decimal(n)` stands for n / 10^18.
#[derive(Clone, Copy, Debug, PartialEq, Eq, Structural)]
pub struct Decimal(pub u128);

/// `u * d`: the amount `u` scaled by the decimal whose atomic value is `d`, rounded down.
pub open spec fn spec_uint_times_decimal(u: nat, d: nat) -> nat {
    if u == 0 || d == 0 { 0 } else { (u * d / (DECIMAL_ATOMICS as nat)) as nat }
}

/// The atomic value of the decimal `n / d`, rounded down.
pub open spec fn spec_ratio(n: nat, d: nat) -> nat
    recommends d != 0,
{
    (n * (DECIMAL_ATOMICS as nat) / d) as nat
}

/// A decimal truncated to 9 fractional digits, in units of 10^-9.
pub open spec fn spec_nano_units(a: Decimal) -> nat {
    (a.0 / 1_000_000_000u128) as nat
}

/// What `decimal_subtraction(a, b)` returns when `b` does not exceed `a` at 10^-9 precision.
pub open spec fn spec_decimal_subtraction(a: Decimal, b: Decimal) -> nat {
    ((spec_nano_units(a) - spec_nano_units(b)) * 1_000_000_000) as nat
}

/// What `decimal_multiplication(a, b)` returns.
pub open spec fn spec_decimal_multiplication(a: Decimal, b: Decimal) -> nat {
    spec_uint_times_decimal(spec_nano_units(a), b.0 as nat) * 1_000_000_000
}

/// A decimal that `decimal_subtraction` and `decimal_multiplication` can scale
/// to 10^-9 units without overflow.
pub open spec fn scalable(a: Decimal) -> bool {
    a.0 * 1_000_000_000 <= u128::MAX
}

impl Decimal {
    /// The atomic value: this decimal times 10^18.
    pub open spec fn atomics_spec(self) -> nat {
        self.0 as nat
    }

    /// The atomic value of this decimal.
    pub fn atomics(&self) -> (r: u128)
        ensures
            r == self.0,
    {
        self.0
    }

    /// The decimal 0.
    pub fn zero() -> (r: Decimal)
        ensures
            r.0 == 0,
    {
        Decimal(0)
    }

    /// The decimal 1.
    pub fn one() -> (r: Decimal)
        ensures
            r.0 == DECIMAL_ATOMICS,
    {
        Decimal(DECIMAL_ATOMICS)
    }

    /// The ratio `nominator / denominator`, rounded down to 18 fractional digits.
    pub fn from_ratio(nominator: Uint128, denominator: Uint128) -> (r: Decimal)
        requires
            denominator.0 != 0,
            nominator.0 * DECIMAL_ATOMICS <= u128::MAX,
        ensures
            r.0 == spec_ratio(nominator.0 as nat, denominator.0 as nat),
    {
        Decimal(nominator.0 * DECIMAL_ATOMICS / denominator.0)
    }

    /// Whether this decimal is 0.
    pub fn is_zero(&self) -> (r: bool)
        ensures
            r == (self.0 == 0),
    {
        self.0 == 0
    }

    /// `self * rhs`: the amount scaled by this decimal, rounded down.
    pub fn mul_uint(self, rhs: Uint128) -> (r: Uint128)
        requires
            rhs.0 * self.0 <= u128::MAX,
        ensures
            r.0 == spec_uint_times_decimal(rhs.0 as nat, self.0 as nat),
    {
        rhs.mul_decimal(self)
    }
}

impl Uint128 {
    /// The amount 0.
    pub fn zero() -> (r: Uint128)
        ensures
            r.0 == 0,
    {
        Uint128(0)
    }

    /// The amount as a `u128`.
    pub fn u128(&self) -> (r: u128)
        ensures
            r == self.0,
    {
        self.0
    }

    /// `self * nom / denom`, rounded down.
    pub fn multiply_ratio(&self, nom: u128, denom: u128) -> (r: Uint128)
        requires
            denom != 0,
            self.0 * nom <= u128::MAX,
        ensures
            r.0 == (self.0 * nom) as int / (denom as int),
    {
        let val: u128 = self.0 * nom / denom;
        Uint128(val)
    }

    /// `self * rhs`: this amount scaled by the decimal, rounded down.
    pub fn mul_decimal(self, rhs: Decimal) -> (r: Uint128)
        requires
            self.0 * rhs.0 <= u128::MAX,
        ensures
            r.0 == spec_uint_times_decimal(self.0 as nat, rhs.0 as nat),
    {
        if self.0 == 0 || rhs.0 == 0 {
            return Uint128::zero();
        }
        self.multiply_ratio(rhs.0, DECIMAL_ATOMICS)
    }

    /// `self - other`, or an underflow error when `other` is larger.
    pub fn sub(self, other: Uint128) -> (r: Result<Uint128, ContractError>)
        ensures
            other.0 <= self.0 ==> (r matches Ok(d) && d.0 == self.0 - other.0),
            other.0 > self.0 ==> (r matches Err(ContractError::Underflow { minuend, subtrahend })
                && minuend == self.0 && subtrahend == other.0),
    {
        if other.0 > self.0 {
            Err(ContractError::Underflow { minuend: self.0, subtrahend: other.0 })
        } else {
            Ok(Uint128(self.0 - other.0))
        }
    }
}

proof fn lemma_scale_down(x: u128)
    ensures
        x * 1_000_000_000 <= u128::MAX ==> (1_000_000_000 * x) as int / (DECIMAL_ATOMICS as int)
            == x as int / 1_000_000_000,
        x * 1_000_000_000 <= u128::MAX ==> (x / 1_000_000_000u128) * DECIMAL_ATOMICS <= u128::MAX,
{
    assert((1_000_000_000 * x) as int / 1_000_000_000_000_000_000int == x as int / 1_000_000_000)
        by (nonlinear_arith);
    assert(x * 1_000_000_000 <= u128::MAX ==> (x / 1_000_000_000u128) * 1_000_000_000_000_000_000int
        <= u128::MAX) by (nonlinear_arith);
}

/// `a - b`, both taken at 10^-9 precision; an underflow error when `b` is the larger.
pub fn decimal_subtraction(a: Decimal, b: Decimal) -> (r: Result<Decimal, ContractError>)
    requires
        scalable(a),
        scalable(b),
    ensures
        spec_nano_units(b) <= spec_nano_units(a) ==> (r matches Ok(d)
            && d.0 == spec_decimal_subtraction(a, b)),
        spec_nano_units(b) > spec_nano_units(a) ==> (r matches Err(ContractError::Underflow { minuend, subtrahend })
            && minuend == spec_nano_units(a) && subtrahend == spec_nano_units(b)),
{
    proof {
        lemma_scale_down(a.0);
        lemma_scale_down(b.0);
    }
    let x = a.mul_uint(Uint128(DECIMAL_FRACTIONAL));
    let y = b.mul_uint(Uint128(DECIMAL_FRACTIONAL));
    let diff = x.sub(y)?;
    Ok(Decimal::from_ratio(diff, Uint128(DECIMAL_FRACTIONAL)))
}

/// `a * b`, with `a` first truncated to 10^-9 precision and the product rounded down
/// to 10^-9 precision.
pub fn decimal_multiplication(a: Decimal, b: Decimal) -> (r: Decimal)
    requires
        scalable(a),
        spec_nano_units(a) * b.0 <= u128::MAX,
        spec_uint_times_decimal(spec_nano_units(a), b.0 as nat) * DECIMAL_ATOMICS <= u128::MAX,
    ensures
        r.0 == spec_decimal_multiplication(a, b),
{
    proof {
        lemma_scale_down(a.0);
    }
    let x = a.mul_uint(Uint128(DECIMAL_FRACTIONAL));
    let p = x.mul_decimal(b);
    Decimal::from_ratio(p, Uint128(DECIMAL_FRACTIONAL))
}

/// Subtracting a decimal from itself gives zero.
pub proof fn subtraction_of_itself_is_zero(a: Decimal)
    ensures
        spec_decimal_subtraction(a, a) == 0,
{
}

/// What `decimal_subtraction` returns, added back to `b`, gives `a`, at 10^-9 precision.
pub proof fn subtraction_undone_by_addition(a: Decimal, b: Decimal)
    requires
        spec_nano_units(b) <= spec_nano_units(a),
    ensures
        spec_decimal_subtraction(a, b) / 1_000_000_000 + spec_nano_units(b) == spec_nano_units(a),
{
    let d = (spec_nano_units(a) - spec_nano_units(b)) as nat;
    assert((d * 1_000_000_000) / 1_000_000_000 == d) by (nonlinear_arith);
}

/// Multiplying by one truncates to 9 fractional digits.
pub proof fn multiplication_by_one_truncates(a: Decimal)
    ensures
        spec_decimal_multiplication(a, Decimal(DECIMAL_ATOMICS)) == spec_nano_units(a) * 1_000_000_000,
{
    let x = spec_nano_units(a);
    assert((x * (DECIMAL_ATOMICS as nat)) / (DECIMAL_ATOMICS as nat) == x) by (nonlinear_arith);
}

} // verus!
