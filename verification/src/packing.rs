//! The shift-then-add step from which every packed word is built.

use crate::integer::{integer_value, shifted_left, sum, MAX_SHIFT};
use malachite::Integer;
use vstd::arithmetic::power2::{lemma_pow2_adds, pow2};
use vstd::prelude::*;

verus! {

/// The value of one packing step: `current` moved up by `shift_bits` bits,
/// plus `addend`.
///
/// Nothing is masked. An addend that needs more than `shift_bits` bits runs
/// into the bits of `current`; see [`lemma_packed_carry`].
pub open spec fn packed(current: int, shift_bits: nat, addend: int) -> int {
    current * pow2(shift_bits) + addend
}

/// One packing step: `(current << shift_bits) + addend`, exactly.
pub(crate) fn pack(current: &Integer, shift_bits: u64, addend: &Integer) -> (word: Integer)
    requires
        shift_bits <= MAX_SHIFT,
    ensures
        integer_value(word) == packed(
            integer_value(*current),
            shift_bits as nat,
            integer_value(*addend),
        ),
{
    let shifted = shifted_left(current, shift_bits);
    sum(&shifted, addend)
}

/// A term `c * 2^k` moved up by `n` bits is `c * 2^(k + n)`.
pub proof fn lemma_shifted_term(c: int, k: nat, n: nat)
    ensures
        c * pow2(k) * pow2(n) == c * pow2(k + n),
{
    lemma_pow2_adds(k, n);
    let pk = pow2(k) as int;
    let pn = pow2(n) as int;
    assert(c * pk * pn == c * (pk * pn)) by (nonlinear_arith);
}

/// Moving a sum up by some bits moves each of its terms.
pub proof fn lemma_shifted_sum(t1: int, t2: int, t3: int, t4: int, t5: int, q: int)
    ensures
        (t1 + t2 + t3 + t4 + t5) * q == t1 * q + t2 * q + t3 * q + t4 * q + t5 * q,
{
    assert((t1 + t2 + t3 + t4 + t5) * q == t1 * q + t2 * q + t3 * q + t4 * q + t5 * q)
        by (nonlinear_arith);
}

/// Sub-fields are not kept apart: `carry` units of overflow in an addend of
/// `shift_bits` bits are `carry` more in the value that was shifted.
pub proof fn lemma_packed_carry(current: int, shift_bits: nat, addend: int, carry: int)
    ensures
        packed(current, shift_bits, addend + carry * pow2(shift_bits)) == packed(
            current + carry,
            shift_bits,
            addend,
        ),
{
    let p = pow2(shift_bits) as int;
    assert(current * p + (addend + carry * p) == (current + carry) * p + addend)
        by (nonlinear_arith);
}

} // verus!
