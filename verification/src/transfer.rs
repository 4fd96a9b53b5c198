//! Transfers: the message, its two packed words and its hash.

use crate::chain::{
    chain_accepted, chain_value, chain_yields, changed, collides, computes, lemma_chain_collision,
    lemma_chain_deterministic,
};
use crate::integer::{from_u64, integer_value, shifted_left, zero};
use crate::packing::{lemma_shifted_sum, lemma_shifted_term, pack};
use malachite::Integer;
use vstd::arithmetic::power2::{lemma_pow2_pos, pow2};
use vstd::prelude::*;

verus! {

/// The operation tag of a transfer.
pub const OP_TRANSFER: u64 = 4;

/// A transfer, each field as a mathematical integer.
pub struct Transfer {
    pub asset_id: int,
    pub receiver_public_key: int,
    pub sender_position_id: int,
    pub receiver_position_id: int,
    pub nonce: int,
    pub amount: int,
    pub expiration_timestamp: int,
}

/// The word of positions and nonce: the sender's position from bit 160, the
/// receiver's from bit 96, the sender's once more from bit 32, the nonce
/// from bit 0.
pub open spec fn positions_word(
    sender_position_id: int,
    receiver_position_id: int,
    nonce: int,
) -> int {
    sender_position_id * pow2(160) + receiver_position_id * pow2(96) + sender_position_id * pow2(
        32,
    ) + nonce
}

/// The word of operation, amount and expiration: the operation tag from bit
/// 241, the amount from bit 177, the expiration from bit 81. The field
/// between amount and expiration, kept for the condition of a conditional
/// transfer, is zero, and so are the lowest 81 bits.
pub open spec fn details_word(amount: int, expiration_timestamp: int) -> int {
    OP_TRANSFER * pow2(241) + amount * pow2(177) + expiration_timestamp * pow2(81)
}

impl Transfer {
    /// The word of positions and nonce of this transfer.
    pub open spec fn positions(self) -> int {
        positions_word(self.sender_position_id, self.receiver_position_id, self.nonce)
    }

    /// The word of operation, amount and expiration of this transfer.
    pub open spec fn details(self) -> int {
        details_word(self.amount, self.expiration_timestamp)
    }

    /// The hash of this transfer under the hash function `f`: the fold of
    /// `f` over the asset, zero, the receiver's key and the two words.
    pub open spec fn hash(self, f: spec_fn(int, int) -> int) -> int {
        chain_value(
            f,
            self.asset_id,
            0,
            self.receiver_public_key,
            self.positions(),
            self.details(),
        )
    }

    /// `h` may be called at every step of hashing this transfer.
    pub open spec fn accepted_by<F: Fn(&Integer, &Integer) -> Integer>(self, h: F) -> bool {
        chain_accepted(
            h,
            self.asset_id,
            0,
            self.receiver_public_key,
            self.positions(),
            self.details(),
        )
    }

    /// Hashing this transfer with `h` may give `out`.
    pub open spec fn hashed_by<F: Fn(&Integer, &Integer) -> Integer>(self, h: F, out: int) -> bool {
        chain_yields(
            h,
            self.asset_id,
            0,
            self.receiver_public_key,
            self.positions(),
            self.details(),
            out,
        )
    }

    /// In how many fields this transfer and `other` differ.
    pub open spec fn fields_changed(self, other: Transfer) -> nat {
        changed(self.asset_id, other.asset_id) + changed(
            self.receiver_public_key,
            other.receiver_public_key,
        ) + changed(self.sender_position_id, other.sender_position_id) + changed(
            self.receiver_position_id,
            other.receiver_position_id,
        ) + changed(self.nonce, other.nonce) + changed(self.amount, other.amount) + changed(
            self.expiration_timestamp,
            other.expiration_timestamp,
        )
    }
}

/// Packs the two positions and the nonce into one word, by steps of 64, 64,
/// 64 and 32 bits that add the sender, the receiver, the sender again and
/// the nonce.
pub fn transfer_positions_word(
    sender_position_id: u64,
    receiver_position_id: u64,
    nonce: u64,
) -> (word: Integer)
    ensures
        integer_value(word) == positions_word(
            sender_position_id as int,
            receiver_position_id as int,
            nonce as int,
        ),
{
    let sender = from_u64(sender_position_id);
    let receiver = from_u64(receiver_position_id);
    let nonce = from_u64(nonce);
    let word = pack(&zero(), 64, &sender);
    let word = pack(&word, 64, &receiver);
    let word = pack(&word, 64, &sender);
    let word = pack(&word, 32, &nonce);
    proof {
        let (s, r) = (sender_position_id as int, receiver_position_id as int);
        let (p32, p64) = (pow2(32) as int, pow2(64) as int);
        lemma_shifted_sum(s * p64, r, 0, 0, 0, p64);
        lemma_shifted_term(s, 64, 64);
        lemma_shifted_sum(s * pow2(128), r * p64, s, 0, 0, p32);
        lemma_shifted_term(s, 128, 32);
        lemma_shifted_term(r, 64, 32);
    }
    word
}

/// Packs the operation tag, the amount, an empty condition and the
/// expiration into one word, by steps of 10, 64, 64 and 32 bits and a last
/// shift of 81 bits.
pub fn transfer_details_word(amount: &Integer, expiration_timestamp: u64) -> (word: Integer)
    ensures
        integer_value(word) == details_word(integer_value(*amount), expiration_timestamp as int),
{
    let tag = from_u64(OP_TRANSFER);
    let condition = zero();
    let expiration = from_u64(expiration_timestamp);
    let word = pack(&zero(), 10, &tag);
    let word = pack(&word, 64, amount);
    let word = pack(&word, 64, &condition);
    let word = pack(&word, 32, &expiration);
    let word = shifted_left(&word, 81);
    proof {
        let (t, a, e) = (4int, integer_value(*amount), expiration_timestamp as int);
        let (p32, p64, p81) = (pow2(32) as int, pow2(64) as int, pow2(81) as int);
        lemma_shifted_sum(t * p64, a, 0, 0, 0, p64);
        lemma_shifted_term(t, 64, 64);
        lemma_shifted_sum(t * pow2(128), a * p64, 0, 0, 0, p32);
        lemma_shifted_term(t, 128, 32);
        lemma_shifted_term(a, 64, 32);
        lemma_shifted_sum(t * pow2(160), a * pow2(96), e, 0, 0, p81);
        lemma_shifted_term(t, 160, 81);
        lemma_shifted_term(a, 96, 81);
    }
    word
}

/// Determinism. Under a hash function that computes `f`, hashing a transfer
/// can give one value only, and the fields of the transfer fix it.
pub proof fn lemma_transfer_deterministic<F: Fn(&Integer, &Integer) -> Integer>(
    h: F,
    f: spec_fn(int, int) -> int,
    transfer: Transfer,
    out: int,
)
    requires
        computes(h, f),
        transfer.hashed_by(h, out),
    ensures
        out == transfer.hash(f),
{
    lemma_chain_deterministic(
        h,
        f,
        transfer.asset_id,
        0,
        transfer.receiver_public_key,
        transfer.positions(),
        transfer.details(),
        out,
    );
}

/// Sensitivity. Two transfers that differ in exactly one field have
/// different hashes, unless `f` has a collision.
pub proof fn lemma_transfer_sensitivity(
    f: spec_fn(int, int) -> int,
    transfer: Transfer,
    other: Transfer,
)
    requires
        transfer.fields_changed(other) == 1,
    ensures
        transfer.hash(f) == other.hash(f) ==> collides(f),
{
    if transfer.hash(f) == other.hash(f) {
        lemma_positions_word_sensitive(
            transfer.sender_position_id,
            transfer.receiver_position_id,
            transfer.nonce,
            other.sender_position_id,
            other.receiver_position_id,
            other.nonce,
        );
        lemma_details_word_sensitive(
            transfer.amount,
            transfer.expiration_timestamp,
            other.amount,
            other.expiration_timestamp,
        );
        lemma_chain_collision(
            f,
            transfer.asset_id,
            0,
            transfer.receiver_public_key,
            transfer.positions(),
            transfer.details(),
            other.asset_id,
            0,
            other.receiver_public_key,
            other.positions(),
            other.details(),
        );
    }
}

/// Overflow is kept, not refused. An amount that is `carry` times 2^64 too
/// large is `carry` more in the operation tag above it.
pub proof fn lemma_details_word_carry(amount: int, expiration_timestamp: int, carry: int)
    ensures
        details_word(amount + carry * pow2(64), expiration_timestamp) == details_word(
            amount,
            expiration_timestamp,
        ) + carry * pow2(241),
{
    lemma_shifted_sum(amount, carry * pow2(64), 0, 0, 0, pow2(177) as int);
    lemma_shifted_term(carry, 64, 177);
}

/// The word of positions changes when one of its three fields changes.
pub proof fn lemma_positions_word_sensitive(s1: int, r1: int, n1: int, s2: int, r2: int, n2: int)
    ensures
        positions_word(s1, r1, n1) == positions_word(s2, r2, n2) ==> {
            &&& r1 == r2 && n1 == n2 ==> s1 == s2
            &&& s1 == s2 && n1 == n2 ==> r1 == r2
            &&& s1 == s2 && r1 == r2 ==> n1 == n2
        },
{
    let (p160, p96, p32) = (pow2(160) as int, pow2(96) as int, pow2(32) as int);
    lemma_pow2_pos(160);
    lemma_pow2_pos(96);
    lemma_pow2_pos(32);
    assert(s1 * p160 + s1 * p32 == s2 * p160 + s2 * p32 ==> s1 == s2) by (nonlinear_arith)
        requires
            p160 > 0,
            p32 > 0,
    ;
    assert(r1 * p96 == r2 * p96 ==> r1 == r2) by (nonlinear_arith)
        requires
            p96 > 0,
    ;
}

/// The word of operation, amount and expiration changes when the amount or
/// the expiration changes.
pub proof fn lemma_details_word_sensitive(a1: int, e1: int, a2: int, e2: int)
    ensures
        details_word(a1, e1) == details_word(a2, e2) ==> {
            &&& e1 == e2 ==> a1 == a2
            &&& a1 == a2 ==> e1 == e2
        },
{
    let (p177, p81) = (pow2(177) as int, pow2(81) as int);
    lemma_pow2_pos(177);
    lemma_pow2_pos(81);
    assert(a1 * p177 == a2 * p177 ==> a1 == a2) by (nonlinear_arith)
        requires
            p177 > 0,
    ;
    assert(e1 * p81 == e2 * p81 ==> e1 == e2) by (nonlinear_arith)
        requires
            p81 > 0,
    ;
}

} // verus!
