//! The message hashes of a limit order and of a transfer.

use crate::chain::{computes, hash_chain};
use crate::integer::{integer_value, zero};
use crate::limit_order::{limit_order_amounts_word, limit_order_metadata_word, LimitOrder};
use crate::transfer::{transfer_details_word, transfer_positions_word, Transfer};
use malachite::Integer;
use vstd::prelude::*;

verus! {

/// The limit order that the arguments of [`get_limit_order_msg`] describe.
pub open spec fn limit_order_message(
    asset_id_synthetic: Integer,
    asset_id_collateral: Integer,
    is_buying_synthetic: bool,
    asset_id_fee: Integer,
    amount_synthetic: Integer,
    amount_collateral: Integer,
    max_amount_fee: Integer,
    nonce: u64,
    position_id: u64,
    expiration_timestamp: u64,
) -> LimitOrder {
    LimitOrder {
        asset_id_synthetic: integer_value(asset_id_synthetic),
        asset_id_collateral: integer_value(asset_id_collateral),
        is_buying_synthetic,
        asset_id_fee: integer_value(asset_id_fee),
        amount_synthetic: integer_value(amount_synthetic),
        amount_collateral: integer_value(amount_collateral),
        max_amount_fee: integer_value(max_amount_fee),
        nonce: nonce as int,
        position_id: position_id as int,
        expiration_timestamp: expiration_timestamp as int,
    }
}

/// The transfer that the arguments of [`get_transfer_msg`] describe.
pub open spec fn transfer_message(
    asset_id: Integer,
    receiver_public_key: Integer,
    sender_position_id: u64,
    receiver_position_id: u64,
    nonce: u64,
    amount: Integer,
    expiration_timestamp: u64,
) -> Transfer {
    Transfer {
        asset_id: integer_value(asset_id),
        receiver_public_key: integer_value(receiver_public_key),
        sender_position_id: sender_position_id as int,
        receiver_position_id: receiver_position_id as int,
        nonce: nonce as int,
        amount: integer_value(amount),
        expiration_timestamp: expiration_timestamp as int,
    }
}

/// Hashes a limit order with fees.
///
/// The sold and the bought side are chosen by `is_buying_synthetic`; the
/// sold asset is hashed with the bought asset, the result with the fee
/// asset, that result with the word of amounts, and that one with the word
/// of metadata. No field is checked against a width: an amount of any size
/// is packed as it is.
///
/// The hash function must accept what it is handed at each step. The result
/// is one that those four calls may give, and with a hash function that
/// computes `f` its value is `hash(f)` of the order.
pub fn get_limit_order_msg<F: Fn(&Integer, &Integer) -> Integer>(
    asset_id_synthetic: &Integer,
    asset_id_collateral: &Integer,
    is_buying_synthetic: bool,
    asset_id_fee: &Integer,
    amount_synthetic: &Integer,
    amount_collateral: &Integer,
    max_amount_fee: &Integer,
    nonce: u64,
    position_id: u64,
    expiration_timestamp: u64,
    hash_function: F,
) -> (result: Integer)
    requires
        limit_order_message(
            *asset_id_synthetic,
            *asset_id_collateral,
            is_buying_synthetic,
            *asset_id_fee,
            *amount_synthetic,
            *amount_collateral,
            *max_amount_fee,
            nonce,
            position_id,
            expiration_timestamp,
        ).accepted_by(hash_function),
    ensures
        limit_order_message(
            *asset_id_synthetic,
            *asset_id_collateral,
            is_buying_synthetic,
            *asset_id_fee,
            *amount_synthetic,
            *amount_collateral,
            *max_amount_fee,
            nonce,
            position_id,
            expiration_timestamp,
        ).hashed_by(hash_function, integer_value(result)),
        forall|f: spec_fn(int, int) -> int| #[trigger]
            computes(hash_function, f) ==> integer_value(result) == limit_order_message(
                *asset_id_synthetic,
                *asset_id_collateral,
                is_buying_synthetic,
                *asset_id_fee,
                *amount_synthetic,
                *amount_collateral,
                *max_amount_fee,
                nonce,
                position_id,
                expiration_timestamp,
            ).hash(f),
{
    let (asset_id_sell, asset_id_buy, amount_sell, amount_buy) = if is_buying_synthetic {
        (asset_id_collateral, asset_id_synthetic, amount_collateral, amount_synthetic)
    } else {
        (asset_id_synthetic, asset_id_collateral, amount_synthetic, amount_collateral)
    };
    let amounts = limit_order_amounts_word(amount_sell, amount_buy, max_amount_fee, nonce);
    let metadata = limit_order_metadata_word(position_id, expiration_timestamp);
    hash_chain(
        hash_function,
        asset_id_sell,
        asset_id_buy,
        asset_id_fee,
        &amounts,
        &metadata,
    )
}

/// Hashes a transfer.
///
/// The asset is hashed with zero, the result with the receiver's public key,
/// that result with the word of positions, and that one with the word of
/// operation, amount and expiration. No field is checked against a width.
///
/// The hash function must accept what it is handed at each step. The result
/// is one that those four calls may give, and with a hash function that
/// computes `f` its value is `hash(f)` of the transfer.
pub fn get_transfer_msg<F: Fn(&Integer, &Integer) -> Integer>(
    asset_id: &Integer,
    receiver_public_key: &Integer,
    sender_position_id: u64,
    receiver_position_id: u64,
    nonce: u64,
    amount: &Integer,
    expiration_timestamp: u64,
    hash_function: F,
) -> (result: Integer)
    requires
        transfer_message(
            *asset_id,
            *receiver_public_key,
            sender_position_id,
            receiver_position_id,
            nonce,
            *amount,
            expiration_timestamp,
        ).accepted_by(hash_function),
    ensures
        transfer_message(
            *asset_id,
            *receiver_public_key,
            sender_position_id,
            receiver_position_id,
            nonce,
            *amount,
            expiration_timestamp,
        ).hashed_by(hash_function, integer_value(result)),
        forall|f: spec_fn(int, int) -> int| #[trigger]
            computes(hash_function, f) ==> integer_value(result) == transfer_message(
                *asset_id,
                *receiver_public_key,
                sender_position_id,
                receiver_position_id,
                nonce,
                *amount,
                expiration_timestamp,
            ).hash(f),
{
    let positions = transfer_positions_word(sender_position_id, receiver_position_id, nonce);
    let details = transfer_details_word(amount, expiration_timestamp);
    let nothing = zero();
    hash_chain(
        hash_function,
        asset_id,
        &nothing,
        receiver_public_key,
        &positions,
        &details,
    )
}

} // verus!
