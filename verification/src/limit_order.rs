//! Limit orders with fees: the message, its two packed words and its hash.

use crate::chain::{
    chain_accepted, chain_value, chain_yields, changed, collides, computes, lemma_chain_collision,
    lemma_chain_deterministic,
};
use crate::integer::{from_u64, integer_value, shifted_left, zero};
use crate::packing::{lemma_shifted_sum, lemma_shifted_term, pack};
use malachite::Integer;
use vstd::arithmetic::power2::{lemma_pow2_pos, lemma_pow2_strictly_increases, pow2};
use vstd::prelude::*;

verus! {

/// The operation tag of a limit order with fees.
pub const OP_LIMIT_ORDER_WITH_FEES: u64 = 3;

/// A limit order, each field as a mathematical integer.
pub struct LimitOrder {
    pub asset_id_synthetic: int,
    pub asset_id_collateral: int,
    pub is_buying_synthetic: bool,
    pub asset_id_fee: int,
    pub amount_synthetic: int,
    pub amount_collateral: int,
    pub max_amount_fee: int,
    pub nonce: int,
    pub position_id: int,
    pub expiration_timestamp: int,
}

/// The word of amounts, fee and nonce: the sell amount from bit 160, the
/// buy amount from bit 96, the fee from bit 32, the nonce from bit 0.
pub open spec fn amounts_word(amount_sell: int, amount_buy: int, max_amount_fee: int, nonce: int) -> int {
    amount_sell * pow2(160) + amount_buy * pow2(96) + max_amount_fee * pow2(32) + nonce
}

/// The word of order metadata: the operation tag from bit 241, the position
/// in each of the three vault fields from bits 177, 113 and 49, and the
/// expiration from bit 17. The lowest 17 bits are zero.
pub open spec fn metadata_word(position_id: int, expiration_timestamp: int) -> int {
    OP_LIMIT_ORDER_WITH_FEES * pow2(241) + position_id * pow2(177) + position_id * pow2(113)
        + position_id * pow2(49) + expiration_timestamp * pow2(17)
}

impl LimitOrder {
    /// The asset given away: collateral when buying synthetic, else synthetic.
    pub open spec fn asset_id_sell(self) -> int {
        if self.is_buying_synthetic {
            self.asset_id_collateral
        } else {
            self.asset_id_synthetic
        }
    }

    /// The asset received: synthetic when buying synthetic, else collateral.
    pub open spec fn asset_id_buy(self) -> int {
        if self.is_buying_synthetic {
            self.asset_id_synthetic
        } else {
            self.asset_id_collateral
        }
    }

    /// The amount given away.
    pub open spec fn amount_sell(self) -> int {
        if self.is_buying_synthetic {
            self.amount_collateral
        } else {
            self.amount_synthetic
        }
    }

    /// The amount received.
    pub open spec fn amount_buy(self) -> int {
        if self.is_buying_synthetic {
            self.amount_synthetic
        } else {
            self.amount_collateral
        }
    }

    /// The word of amounts, fee and nonce of this order.
    pub open spec fn amounts(self) -> int {
        amounts_word(self.amount_sell(), self.amount_buy(), self.max_amount_fee, self.nonce)
    }

    /// The word of metadata of this order.
    pub open spec fn metadata(self) -> int {
        metadata_word(self.position_id, self.expiration_timestamp)
    }

    /// The hash of this order under the hash function `f`: the fold of `f`
    /// over the sold asset, the bought asset, the fee asset and the two words.
    pub open spec fn hash(self, f: spec_fn(int, int) -> int) -> int {
        chain_value(
            f,
            self.asset_id_sell(),
            self.asset_id_buy(),
            self.asset_id_fee,
            self.amounts(),
            self.metadata(),
        )
    }

    /// `h` may be called at every step of hashing this order.
    pub open spec fn accepted_by<F: Fn(&Integer, &Integer) -> Integer>(self, h: F) -> bool {
        chain_accepted(
            h,
            self.asset_id_sell(),
            self.asset_id_buy(),
            self.asset_id_fee,
            self.amounts(),
            self.metadata(),
        )
    }

    /// Hashing this order with `h` may give `out`.
    pub open spec fn hashed_by<F: Fn(&Integer, &Integer) -> Integer>(self, h: F, out: int) -> bool {
        chain_yields(
            h,
            self.asset_id_sell(),
            self.asset_id_buy(),
            self.asset_id_fee,
            self.amounts(),
            self.metadata(),
            out,
        )
    }

    /// The same trade seen from the other side: the direction is turned
    /// round, and synthetic and collateral change places in asset and amount.
    pub open spec fn relabelled(self) -> LimitOrder {
        LimitOrder {
            asset_id_synthetic: self.asset_id_collateral,
            asset_id_collateral: self.asset_id_synthetic,
            is_buying_synthetic: !self.is_buying_synthetic,
            amount_synthetic: self.amount_collateral,
            amount_collateral: self.amount_synthetic,
            ..self
        }
    }

    /// In how many fields this order and `other` differ.
    pub open spec fn fields_changed(self, other: LimitOrder) -> nat {
        changed(self.asset_id_synthetic, other.asset_id_synthetic) + changed(
            self.asset_id_collateral,
            other.asset_id_collateral,
        ) + (if self.is_buying_synthetic == other.is_buying_synthetic {
            0nat
        } else {
            1nat
        }) + changed(self.asset_id_fee, other.asset_id_fee) + changed(
            self.amount_synthetic,
            other.amount_synthetic,
        ) + changed(self.amount_collateral, other.amount_collateral) + changed(
            self.max_amount_fee,
            other.max_amount_fee,
        ) + changed(self.nonce, other.nonce) + changed(self.position_id, other.position_id)
            + changed(self.expiration_timestamp, other.expiration_timestamp)
    }
}

/// Packs the sell amount, the buy amount, the fee and the nonce into one
/// word, by three shift-then-add steps of 64, 64 and 32 bits.
pub fn limit_order_amounts_word(
    amount_sell: &Integer,
    amount_buy: &Integer,
    max_amount_fee: &Integer,
    nonce: u64,
) -> (word: Integer)
    ensures
        integer_value(word) == amounts_word(
            integer_value(*amount_sell),
            integer_value(*amount_buy),
            integer_value(*max_amount_fee),
            nonce as int,
        ),
{
    let nonce = from_u64(nonce);
    let word = pack(amount_sell, 64, amount_buy);
    let word = pack(&word, 64, max_amount_fee);
    let word = pack(&word, 32, &nonce);
    proof {
        let (s, b, m) = (
            integer_value(*amount_sell),
            integer_value(*amount_buy),
            integer_value(*max_amount_fee),
        );
        let (p32, p64) = (pow2(32) as int, pow2(64) as int);
        lemma_shifted_sum(s * p64, b, 0, 0, 0, p64);
        lemma_shifted_term(s, 64, 64);
        lemma_shifted_sum(s * pow2(128), b * p64, m, 0, 0, p32);
        lemma_shifted_term(s, 128, 32);
        lemma_shifted_term(b, 64, 32);
    }
    word
}

/// Packs the operation tag, the position (three times) and the expiration
/// into one word, by steps of 10, 64, 64, 64 and 32 bits and a last shift
/// of 17 bits.
pub fn limit_order_metadata_word(position_id: u64, expiration_timestamp: u64) -> (word: Integer)
    ensures
        integer_value(word) == metadata_word(position_id as int, expiration_timestamp as int),
{
    let tag = from_u64(OP_LIMIT_ORDER_WITH_FEES);
    let position = from_u64(position_id);
    let expiration = from_u64(expiration_timestamp);
    let word = pack(&zero(), 10, &tag);
    let word = pack(&word, 64, &position);
    let word = pack(&word, 64, &position);
    let word = pack(&word, 64, &position);
    let word = pack(&word, 32, &expiration);
    let word = shifted_left(&word, 17);
    proof {
        let (t, p, e) = (3int, position_id as int, expiration_timestamp as int);
        let (p17, p32, p64) = (pow2(17) as int, pow2(32) as int, pow2(64) as int);
        // After the tag and the three positions: 3 * 2^192 + p * 2^128 + p * 2^64 + p.
        lemma_shifted_sum(t * p64, p, 0, 0, 0, p64);
        lemma_shifted_term(t, 64, 64);
        lemma_shifted_sum(t * pow2(128), p * p64, p, 0, 0, p64);
        lemma_shifted_term(t, 128, 64);
        lemma_shifted_term(p, 64, 64);
        // After the expiration: every term 32 bits further up.
        lemma_shifted_sum(t * pow2(192), p * pow2(128), p * p64, p, 0, p32);
        lemma_shifted_term(t, 192, 32);
        lemma_shifted_term(p, 128, 32);
        lemma_shifted_term(p, 64, 32);
        // After the last shift: every term 17 bits further up.
        lemma_shifted_sum(t * pow2(224), p * pow2(160), p * pow2(96), p * p32, e, p17);
        lemma_shifted_term(t, 224, 17);
        lemma_shifted_term(p, 160, 17);
        lemma_shifted_term(p, 96, 17);
        lemma_shifted_term(p, 32, 17);
    }
    word
}

/// Determinism. Under a hash function that computes `f`, hashing an order
/// can give one value only, and the fields of the order fix it.
pub proof fn lemma_limit_order_deterministic<F: Fn(&Integer, &Integer) -> Integer>(
    h: F,
    f: spec_fn(int, int) -> int,
    order: LimitOrder,
    out: int,
)
    requires
        computes(h, f),
        order.hashed_by(h, out),
    ensures
        out == order.hash(f),
{
    lemma_chain_deterministic(
        h,
        f,
        order.asset_id_sell(),
        order.asset_id_buy(),
        order.asset_id_fee,
        order.amounts(),
        order.metadata(),
        out,
    );
}

/// Direction symmetry. Turning the direction round while exchanging
/// synthetic and collateral, in asset and in amount, leaves the hash as it
/// was.
pub proof fn lemma_limit_order_direction_symmetry(f: spec_fn(int, int) -> int, order: LimitOrder)
    ensures
        order.relabelled().hash(f) == order.hash(f),
{
}

/// Sensitivity. Two orders that differ in exactly one field have different
/// hashes, unless `f` has a collision. The one exception is left out: with
/// the same asset and the same amount on both sides, the direction alone
/// changes nothing that is hashed.
pub proof fn lemma_limit_order_sensitivity(
    f: spec_fn(int, int) -> int,
    order: LimitOrder,
    other: LimitOrder,
)
    requires
        order.fields_changed(other) == 1,
        order.is_buying_synthetic != other.is_buying_synthetic ==> order.asset_id_synthetic
            != order.asset_id_collateral || order.amount_synthetic != order.amount_collateral,
    ensures
        order.hash(f) == other.hash(f) ==> collides(f),
{
    if order.hash(f) == other.hash(f) {
        lemma_amounts_word_sensitive(
            order.amount_sell(),
            order.amount_buy(),
            order.max_amount_fee,
            order.nonce,
            other.amount_sell(),
            other.amount_buy(),
            other.max_amount_fee,
            other.nonce,
        );
        lemma_metadata_word_sensitive(
            order.position_id,
            order.expiration_timestamp,
            other.position_id,
            other.expiration_timestamp,
        );
        lemma_chain_collision(
            f,
            order.asset_id_sell(),
            order.asset_id_buy(),
            order.asset_id_fee,
            order.amounts(),
            order.metadata(),
            other.asset_id_sell(),
            other.asset_id_buy(),
            other.asset_id_fee,
            other.amounts(),
            other.metadata(),
        );
    }
}

/// Overflow is kept, not refused. An amount or a fee that is `carry` times
/// 2^64 too large is `carry` more in the field above it.
pub proof fn lemma_amounts_word_carry(
    amount_sell: int,
    amount_buy: int,
    max_amount_fee: int,
    nonce: int,
    carry: int,
)
    ensures
        amounts_word(amount_sell, amount_buy + carry * pow2(64), max_amount_fee, nonce)
            == amounts_word(amount_sell + carry, amount_buy, max_amount_fee, nonce),
        amounts_word(amount_sell, amount_buy, max_amount_fee + carry * pow2(64), nonce)
            == amounts_word(amount_sell, amount_buy + carry, max_amount_fee, nonce),
{
    lemma_shifted_sum(amount_buy, carry * pow2(64), 0, 0, 0, pow2(96) as int);
    lemma_shifted_term(carry, 64, 96);
    lemma_shifted_sum(amount_sell, carry, 0, 0, 0, pow2(160) as int);
    lemma_shifted_sum(max_amount_fee, carry * pow2(64), 0, 0, 0, pow2(32) as int);
    lemma_shifted_term(carry, 64, 32);
    lemma_shifted_sum(amount_buy, carry, 0, 0, 0, pow2(96) as int);
}

/// The word of amounts changes when one of its four fields changes, and
/// when the two amounts, being different, change places.
pub proof fn lemma_amounts_word_sensitive(
    s1: int,
    b1: int,
    m1: int,
    n1: int,
    s2: int,
    b2: int,
    m2: int,
    n2: int,
)
    ensures
        amounts_word(s1, b1, m1, n1) == amounts_word(s2, b2, m2, n2) ==> {
            &&& b1 == b2 && m1 == m2 && n1 == n2 ==> s1 == s2
            &&& s1 == s2 && m1 == m2 && n1 == n2 ==> b1 == b2
            &&& s1 == s2 && b1 == b2 && n1 == n2 ==> m1 == m2
            &&& s1 == s2 && b1 == b2 && m1 == m2 ==> n1 == n2
            &&& s1 == b2 && b1 == s2 && m1 == m2 && n1 == n2 ==> s1 == b1
        },
{
    let (p160, p96, p32) = (pow2(160) as int, pow2(96) as int, pow2(32) as int);
    lemma_pow2_pos(160);
    lemma_pow2_pos(96);
    lemma_pow2_pos(32);
    lemma_pow2_strictly_increases(96, 160);
    assert(s1 * p160 == s2 * p160 ==> s1 == s2) by (nonlinear_arith)
        requires
            p160 > 0,
    ;
    assert(b1 * p96 == b2 * p96 ==> b1 == b2) by (nonlinear_arith)
        requires
            p96 > 0,
    ;
    assert(m1 * p32 == m2 * p32 ==> m1 == m2) by (nonlinear_arith)
        requires
            p32 > 0,
    ;
    assert(s1 * p160 + b1 * p96 == b1 * p160 + s1 * p96 ==> s1 == b1) by (nonlinear_arith)
        requires
            p96 < p160,
    ;
}

/// The word of metadata changes when the position or the expiration changes.
pub proof fn lemma_metadata_word_sensitive(
    position: int,
    expiration: int,
    other_position: int,
    other_expiration: int,
)
    ensures
        metadata_word(position, expiration) == metadata_word(other_position, other_expiration)
            ==> {
            &&& expiration == other_expiration ==> position == other_position
            &&& position == other_position ==> expiration == other_expiration
        },
{
    let (w177, w113, w49, w17) = (
        pow2(177) as int,
        pow2(113) as int,
        pow2(49) as int,
        pow2(17) as int,
    );
    lemma_pow2_pos(177);
    lemma_pow2_pos(113);
    lemma_pow2_pos(49);
    lemma_pow2_pos(17);
    assert(position * w177 + position * w113 + position * w49 == other_position * w177
        + other_position * w113 + other_position * w49 ==> position == other_position)
        by (nonlinear_arith)
        requires
            w177 > 0,
            w113 > 0,
            w49 > 0,
    ;
    assert(expiration * w17 == other_expiration * w17 ==> expiration == other_expiration)
        by (nonlinear_arith)
        requires
            w17 > 0,
    ;
}

} // verus!
