//! Arbitrary-precision integers, as provided by `malachite`.
//!
//! Verus does not look inside an `Integer`. The mathematical integer that one
//! stands for is named by [`integer_value`], and each operation the crate
//! needs is a single call into `malachite` whose contract is stated over that
//! value. These contracts are believed, not proved: they restate what the
//! documentation of `malachite` says of each operation.

use malachite::num::basic::traits::Zero;
use malachite::Integer;
use vstd::arithmetic::power2::pow2;
use vstd::prelude::*;

verus! {

/// `malachite::Integer`, declared so that it can stand in signatures. Its
/// fields stay hidden.
#[verifier::external_type_specification]
#[verifier::external_body]
pub struct ExInteger(malachite::Integer);

/// The mathematical integer that an `Integer` stands for.
pub uninterp spec fn integer_value(x: Integer) -> int;

/// The widest shift that [`shifted_left`] is asked for. A shift by `bits`
/// makes `malachite` allocate `bits / 64` further limbs, so an unbounded
/// shift could exhaust memory; this bound keeps the growth to two limbs.
pub(crate) const MAX_SHIFT: u64 = 128;

/// The constant `Integer::ZERO` of `malachite`, whose documentation calls it
/// "the constant 0".
#[verifier::external_body]
pub(crate) fn zero() -> (r: Integer)
    ensures
        integer_value(r) == 0,
{
    Integer::ZERO
}

/// `Integer::from(u64)` of `malachite`, which converts an unsigned primitive
/// integer to an `Integer`: the result has the value of `x`.
#[verifier::external_body]
pub(crate) fn from_u64(x: u64) -> (r: Integer)
    ensures
        integer_value(r) == x,
{
    Integer::from(x)
}

/// `&Integer << u64` of `malachite`, documented as multiplying by a power of
/// two, `f(x, k) = x * 2^k`, for an integer of either sign.
#[verifier::external_body]
pub(crate) fn shifted_left(x: &Integer, bits: u64) -> (r: Integer)
    requires
        bits <= MAX_SHIFT,
    ensures
        integer_value(r) == integer_value(*x) * pow2(bits as nat),
{
    x << bits
}

/// `&Integer + &Integer` of `malachite`, documented as `f(x, y) = x + y`.
#[verifier::external_body]
pub(crate) fn sum(x: &Integer, y: &Integer) -> (r: Integer)
    ensures
        integer_value(r) == integer_value(*x) + integer_value(*y),
{
    x + y
}

} // verus!
