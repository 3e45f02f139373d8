//! Trusted interface to the arbitrary-precision integers of `num_bigint`.
//!
//! Every contract in this crate speaks of a `BigInt` through `big_value`,
//! the mathematical integer it denotes.  `num_bigint` keeps a canonical
//! representation (a sign that is zero exactly for the value zero, and a
//! normalized magnitude), so the value determines the representation.

use vstd::prelude::*;
use num_traits::Signed;
use num_traits::ToPrimitive;

verus! {

#[verifier::external_type_specification]
#[verifier::external_body]
pub struct ExBigInt(num_bigint::BigInt);

/// The magnitude digits a `BigInt` holds, least significant first, in
/// base 2^64 as `num_bigint` stores them, without leading zeros.
pub uninterp spec fn big_mag(b: num_bigint::BigInt) -> Seq<u64>;

/// Whether a `BigInt` carries the minus sign.  The canonical form ties
/// the sign to the magnitude: zero is never negative.
pub uninterp spec fn big_neg(b: num_bigint::BigInt) -> bool;

/// The number a digit sequence denotes in base 2^64.
pub open spec fn limbs_value(s: Seq<u64>) -> nat
    decreases s.len(),
{
    if s.len() == 0 {
        0
    } else {
        s.first() as nat + 0x1_0000_0000_0000_0000 * limbs_value(s.drop_first())
    }
}

/// The mathematical integer that a `BigInt` denotes.
pub open spec fn big_value(b: num_bigint::BigInt) -> int {
    if big_neg(b) {
        -(limbs_value(big_mag(b)) as int)
    } else {
        limbs_value(big_mag(b)) as int
    }
}

/// Relies on `<BigInt as From<i128>>::from`: the result denotes exactly
/// `v`, so it is negative exactly when `v` is, and zero has no digits.
#[verifier::external_body]
pub fn big_from_i128(v: i128) -> (r: num_bigint::BigInt)
    ensures
        big_value(r) == v as int,
        big_neg(r) == (v < 0),
        v == 0 ==> big_mag(r) == Seq::<u64>::empty(),
{
    num_bigint::BigInt::from(v)
}

/// Relies on `<BigInt as Clone>::clone`: the copy denotes the same integer.
#[verifier::external_body]
pub fn big_clone(b: &num_bigint::BigInt) -> (r: num_bigint::BigInt)
    ensures
        big_value(r) == big_value(*b),
{
    b.clone()
}

/// Relies on `<&BigInt as Add<&BigInt>>::add`: exact integer addition.
#[verifier::external_body]
pub fn big_add(a: &num_bigint::BigInt, b: &num_bigint::BigInt) -> (r: num_bigint::BigInt)
    ensures
        big_value(r) == big_value(*a) + big_value(*b),
{
    a + b
}

/// Relies on `<&BigInt as Sub<&BigInt>>::sub`: exact integer subtraction.
#[verifier::external_body]
pub fn big_sub(a: &num_bigint::BigInt, b: &num_bigint::BigInt) -> (r: num_bigint::BigInt)
    ensures
        big_value(r) == big_value(*a) - big_value(*b),
{
    a - b
}

/// Relies on `<BigInt as PartialEq>::eq`: with the canonical representation,
/// structural equality coincides with equality of denoted integers.
#[verifier::external_body]
pub fn big_eq(a: &num_bigint::BigInt, b: &num_bigint::BigInt) -> (r: bool)
    ensures
        r == (big_value(*a) == big_value(*b)),
{
    a == b
}

/// Relies on `num_traits::Signed::is_positive` for `BigInt`: true exactly
/// when the sign is plus, that is, when the denoted integer is positive.
#[verifier::external_body]
pub fn big_is_positive(b: &num_bigint::BigInt) -> (r: bool)
    ensures
        r == (big_value(*b) > 0),
{
    b.is_positive()
}

/// Relies on `num_traits::ToPrimitive::to_usize` for `BigInt`: `Some`
/// exactly when the denoted integer fits in `usize`, and then it is that
/// integer itself.
#[verifier::external_body]
pub fn big_to_usize_opt(b: &num_bigint::BigInt) -> (r: Option<usize>)
    ensures
        match r {
            Some(v) => big_value(*b) == v as int,
            None => big_value(*b) < 0 || big_value(*b) > usize::MAX as int,
        },
{
    b.to_usize()
}

/// Relies on `num_traits::ToPrimitive::to_u32` for `BigInt`: `Some`
/// exactly when the denoted integer fits in `u32`, and then it is that
/// integer itself.
#[verifier::external_body]
pub fn big_to_u32_opt(b: &num_bigint::BigInt) -> (r: Option<u32>)
    ensures
        match r {
            Some(v) => big_value(*b) == v as int,
            None => big_value(*b) < 0 || big_value(*b) > u32::MAX as int,
        },
{
    b.to_u32()
}

} // verus!
