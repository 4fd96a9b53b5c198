use fast_stark_crypto::messages::{get_limit_order_msg, get_transfer_msg};
use malachite::num::conversion::traits::FromStringBase;
use malachite::strings::ToLowerHexString;
use malachite::Integer;
use starknet_crypto::{pedersen_hash, FieldElement};

fn hex(digits: &str) -> Integer {
    Integer::from_string_base(16, digits).unwrap()
}

fn dec(digits: &str) -> Integer {
    Integer::from_string_base(10, digits).unwrap()
}

fn int_to_field_element(int: &Integer) -> FieldElement {
    FieldElement::from_hex_be(&int.to_lower_hex_string()).unwrap()
}

fn wrapped_pedersen(left: &Integer, right: &Integer) -> Integer {
    let hashed_value = pedersen_hash(&int_to_field_element(left), &int_to_field_element(right));
    Integer::from_string_base(16, &hashed_value.to_lower_hex_string()).unwrap()
}

/// A stand-in hash that tells its arguments and their order apart: 3 * left + right.
fn weighted(left: &Integer, right: &Integer) -> Integer {
    left * Integer::from(3u32) + right
}

struct Order {
    asset_id_synthetic: Integer,
    asset_id_collateral: Integer,
    is_buying_synthetic: bool,
    asset_id_fee: Integer,
    amount_synthetic: Integer,
    amount_collateral: Integer,
    max_amount_fee: Integer,
    nonce: u64,
    position_id: u64,
    expiration_timestamp: u64,
}

fn sample_order() -> Order {
    Order {
        asset_id_synthetic: hex("d78f244"),
        asset_id_collateral: hex("a1545ed8"),
        is_buying_synthetic: true,
        asset_id_fee: hex("a1545ed8"),
        amount_synthetic: dec("1143395141"),
        amount_collateral: dec("2485778700"),
        max_amount_fee: dec("1328036591"),
        nonce: 237283943,
        position_id: 711957234,
        expiration_timestamp: 1,
    }
}

fn hash_order(order: &Order, hash_function: fn(&Integer, &Integer) -> Integer) -> Integer {
    get_limit_order_msg(
        &order.asset_id_synthetic,
        &order.asset_id_collateral,
        order.is_buying_synthetic,
        &order.asset_id_fee,
        &order.amount_synthetic,
        &order.amount_collateral,
        &order.max_amount_fee,
        order.nonce,
        order.position_id,
        order.expiration_timestamp,
        hash_function,
    )
}

struct Move {
    asset_id: Integer,
    receiver_public_key: Integer,
    sender_position_id: u64,
    receiver_position_id: u64,
    nonce: u64,
    amount: Integer,
    expiration_timestamp: u64,
}

fn sample_move() -> Move {
    Move {
        asset_id: hex("35596841893e0d17079c27b2d72db1694f26a1932a7429144b439ba0807d29c"),
        receiver_public_key: hex(
            "4e8f8d6d2dde51fdfc1717582318a437f1d81de4657a93d74c33c9793d12be3",
        ),
        sender_position_id: 4,
        receiver_position_id: 3,
        nonce: 1,
        amount: dec("1000000"),
        expiration_timestamp: 1712135815,
    }
}

fn hash_move(transfer: &Move, hash_function: fn(&Integer, &Integer) -> Integer) -> Integer {
    get_transfer_msg(
        &transfer.asset_id,
        &transfer.receiver_public_key,
        transfer.sender_position_id,
        transfer.receiver_position_id,
        transfer.nonce,
        &transfer.amount,
        transfer.expiration_timestamp,
        hash_function,
    )
}

#[test]
fn test_get_limit_order_msg_buy() {
    let amount_collateral = Integer::from_string_base(10, "2485778700").unwrap();
    let amount_fee = Integer::from_string_base(10, "1328036591").unwrap();
    let amount_synthetic = Integer::from_string_base(10, "1143395141").unwrap();
    let asset_id_collateral = Integer::from_string_base(16, "a1545ed8").unwrap();
    let asset_id_synthetic = Integer::from_string_base(16, "d78f244").unwrap();
    let expiration_timestamp = 1;
    let is_buying_synthetic = true;
    let nonce = 237283943;
    let position_id = 711957234;

    let result = get_limit_order_msg(
        &asset_id_synthetic,
        &asset_id_collateral,
        is_buying_synthetic,
        &asset_id_collateral,
        &amount_synthetic,
        &amount_collateral,
        &amount_fee,
        nonce,
        position_id,
        expiration_timestamp,
        wrapped_pedersen,
    );

    let expected_hash = Integer::from_string_base(
        16,
        "63375cebdc56aad66f9df01c375cbaf6552c237bdd4a22f9c8eeb0cb151f38d",
    )
    .unwrap();
    assert!(result == expected_hash);
}

#[test]
fn test_get_limit_order_msg_sell() {
    let amount_collateral = Integer::from_string_base(10, "1779339390").unwrap();
    let amount_fee = Integer::from_string_base(10, "2423504933").unwrap();
    let amount_synthetic = Integer::from_string_base(10, "918775584").unwrap();
    let asset_id_collateral = Integer::from_string_base(16, "c50a1245").unwrap();
    let asset_id_synthetic = Integer::from_string_base(16, "f5fc50c3").unwrap();
    let expiration_timestamp = 1;
    let is_buying_synthetic = false;
    let nonce = 2908915741;
    let position_id = 1643977314;

    let result = get_limit_order_msg(
        &asset_id_synthetic,
        &asset_id_collateral,
        is_buying_synthetic,
        &asset_id_collateral,
        &amount_synthetic,
        &amount_collateral,
        &amount_fee,
        nonce,
        position_id,
        expiration_timestamp,
        wrapped_pedersen,
    );

    let expected_hash = Integer::from_string_base(
        16,
        "4bd1a1c31b8248c8368af2f0bc0cca455b1a003fa051f84af297cff2e2bc411",
    )
    .unwrap();

    assert!(result == expected_hash);
}

#[test]
fn test_get_transfer_msg() {
    let amount = Integer::from_string_base(10, "1000000").unwrap();

    let asset_id = Integer::from_string_base(
        16,
        "35596841893e0d17079c27b2d72db1694f26a1932a7429144b439ba0807d29c",
    )
    .unwrap();

    let receiver_public_key = Integer::from_string_base(
        16,
        "4e8f8d6d2dde51fdfc1717582318a437f1d81de4657a93d74c33c9793d12be3",
    )
    .unwrap();

    let expiration_timestamp = 1712135815;
    let nonce = 1;
    let sender_position_id = 4;
    let receiver_position_id = 3;

    let result = get_transfer_msg(
        &asset_id,
        &receiver_public_key,
        sender_position_id,
        receiver_position_id,
        nonce,
        &amount,
        expiration_timestamp,
        wrapped_pedersen,
    );

    let expected_hash = Integer::from_string_base(
        16,
        "4f7f3014abc11ddcd5406932441b220640906921faaf566e728a6a75aa7ab06",
    )
    .unwrap();

    assert!(result == expected_hash);
}

fn small_order(is_buying_synthetic: bool) -> Order {
    Order {
        asset_id_synthetic: hex("d7"),
        asset_id_collateral: hex("a1"),
        is_buying_synthetic,
        asset_id_fee: hex("fe"),
        amount_synthetic: dec("10"),
        amount_collateral: dec("20"),
        max_amount_fee: dec("3"),
        nonce: 7,
        position_id: 9,
        expiration_timestamp: 8,
    }
}

#[test]
fn limit_order_buying_folds_collateral_side_first() {
    // 81 * 0xa1 + 27 * 0xd7 + 9 * 0xfe + 3 * amounts + metadata, sell amount 20, buy amount 10
    let result = hash_order(&small_order(true), weighted);
    assert_eq!(
        result,
        hex("60000000000000012003c000000000012001e0000000000120009001052a1")
    );
}

#[test]
fn limit_order_selling_folds_synthetic_side_first() {
    // 81 * 0xd7 + 27 * 0xa1 + 9 * 0xfe + 3 * amounts + metadata, sell amount 10, buy amount 20
    let result = hash_order(&small_order(false), weighted);
    assert_eq!(
        result,
        hex("60000000000000012001e000000000012003c000000000012000900105e05")
    );
}

#[test]
fn transfer_folds_asset_zero_key_and_both_words() {
    let transfer = Move {
        asset_id: hex("a1"),
        receiver_public_key: hex("be"),
        sender_position_id: 4,
        receiver_position_id: 3,
        nonce: 1,
        amount: dec("1000"),
        expiration_timestamp: 77,
    };
    // 81 * 0xa1 + 27 * 0 + 9 * 0xbe + 3 * positions + details
    assert_eq!(
        hash_move(&transfer, weighted),
        hex("800000000000007d0000c0000000000000009009a00000000000c000039a2")
    );
}

#[test]
fn limit_order_hash_is_the_same_on_every_call() {
    let order = sample_order();
    let first = hash_order(&order, wrapped_pedersen);
    let second = hash_order(&order, wrapped_pedersen);
    let from_equal_fields = hash_order(&sample_order(), wrapped_pedersen);
    assert_eq!(first, second);
    assert_eq!(first, from_equal_fields);
}

#[test]
fn transfer_hash_is_the_same_on_every_call() {
    let transfer = sample_move();
    let first = hash_move(&transfer, wrapped_pedersen);
    let second = hash_move(&transfer, wrapped_pedersen);
    let from_equal_fields = hash_move(&sample_move(), wrapped_pedersen);
    assert_eq!(first, second);
    assert_eq!(first, from_equal_fields);
}

fn relabelled(order: &Order) -> Order {
    Order {
        asset_id_synthetic: order.asset_id_collateral.clone(),
        asset_id_collateral: order.asset_id_synthetic.clone(),
        is_buying_synthetic: !order.is_buying_synthetic,
        asset_id_fee: order.asset_id_fee.clone(),
        amount_synthetic: order.amount_collateral.clone(),
        amount_collateral: order.amount_synthetic.clone(),
        max_amount_fee: order.max_amount_fee.clone(),
        nonce: order.nonce,
        position_id: order.position_id,
        expiration_timestamp: order.expiration_timestamp,
    }
}

#[test]
fn limit_order_relabelled_has_the_same_hash() {
    let order = sample_order();
    assert_eq!(
        hash_order(&relabelled(&order), wrapped_pedersen),
        hex("63375cebdc56aad66f9df01c375cbaf6552c237bdd4a22f9c8eeb0cb151f38d")
    );
    let small = small_order(false);
    assert_eq!(hash_order(&relabelled(&small), weighted), hash_order(&small, weighted));
}

#[test]
fn limit_order_direction_alone_changes_the_hash() {
    let order = sample_order();
    let mut turned = sample_order();
    turned.is_buying_synthetic = false;
    assert_ne!(hash_order(&order, wrapped_pedersen), hash_order(&turned, wrapped_pedersen));
}

#[test]
fn limit_order_direction_with_equal_sides_keeps_the_hash() {
    let mut order = sample_order();
    order.asset_id_synthetic = order.asset_id_collateral.clone();
    order.amount_synthetic = order.amount_collateral.clone();
    let buying = hash_order(&order, wrapped_pedersen);
    order.is_buying_synthetic = false;
    let selling = hash_order(&order, wrapped_pedersen);
    assert_eq!(buying, selling);
}

#[test]
fn limit_order_hash_changes_with_each_field() {
    let base = hash_order(&sample_order(), wrapped_pedersen);
    let one = Integer::from(1u32);

    let mut order = sample_order();
    order.asset_id_synthetic = &order.asset_id_synthetic + &one;
    assert_ne!(hash_order(&order, wrapped_pedersen), base);

    let mut order = sample_order();
    order.asset_id_collateral = &order.asset_id_collateral + &one;
    assert_ne!(hash_order(&order, wrapped_pedersen), base);

    let mut order = sample_order();
    order.asset_id_fee = &order.asset_id_fee + &one;
    assert_ne!(hash_order(&order, wrapped_pedersen), base);

    let mut order = sample_order();
    order.amount_synthetic = &order.amount_synthetic + &one;
    assert_ne!(hash_order(&order, wrapped_pedersen), base);

    let mut order = sample_order();
    order.amount_collateral = &order.amount_collateral + &one;
    assert_ne!(hash_order(&order, wrapped_pedersen), base);

    let mut order = sample_order();
    order.max_amount_fee = &order.max_amount_fee + &one;
    assert_ne!(hash_order(&order, wrapped_pedersen), base);

    let mut order = sample_order();
    order.nonce += 1;
    assert_ne!(hash_order(&order, wrapped_pedersen), base);

    let mut order = sample_order();
    order.position_id += 1;
    assert_ne!(hash_order(&order, wrapped_pedersen), base);

    let mut order = sample_order();
    order.expiration_timestamp += 1;
    assert_ne!(hash_order(&order, wrapped_pedersen), base);
}

#[test]
fn transfer_hash_changes_with_each_field() {
    let base = hash_move(&sample_move(), wrapped_pedersen);
    let one = Integer::from(1u32);

    let mut transfer = sample_move();
    transfer.asset_id = &transfer.asset_id + &one;
    assert_ne!(hash_move(&transfer, wrapped_pedersen), base);

    let mut transfer = sample_move();
    transfer.receiver_public_key = &transfer.receiver_public_key + &one;
    assert_ne!(hash_move(&transfer, wrapped_pedersen), base);

    let mut transfer = sample_move();
    transfer.sender_position_id += 1;
    assert_ne!(hash_move(&transfer, wrapped_pedersen), base);

    let mut transfer = sample_move();
    transfer.receiver_position_id += 1;
    assert_ne!(hash_move(&transfer, wrapped_pedersen), base);

    let mut transfer = sample_move();
    transfer.nonce += 1;
    assert_ne!(hash_move(&transfer, wrapped_pedersen), base);

    let mut transfer = sample_move();
    transfer.amount = &transfer.amount + &one;
    assert_ne!(hash_move(&transfer, wrapped_pedersen), base);

    let mut transfer = sample_move();
    transfer.expiration_timestamp += 1;
    assert_ne!(hash_move(&transfer, wrapped_pedersen), base);
}

#[test]
fn limit_order_with_oversized_amount_is_hashed_as_packed() {
    // A buy amount of 2^64 + 5 beside a sell amount of 7 packs to the word of
    // a buy amount of 5 beside a sell amount of 8.
    let mut oversized = sample_order();
    oversized.amount_synthetic = hex("10000000000000005");
    oversized.amount_collateral = dec("7");
    let mut carried = sample_order();
    carried.amount_synthetic = dec("5");
    carried.amount_collateral = dec("8");

    let first = hash_order(&oversized, wrapped_pedersen);
    let second = hash_order(&oversized, wrapped_pedersen);
    assert_eq!(first, second);
    assert_eq!(first, hash_order(&carried, wrapped_pedersen));
    assert_ne!(first, hash_order(&sample_order(), wrapped_pedersen));
}

#[test]
fn transfer_with_oversized_amount_is_hashed_as_packed() {
    let mut oversized = sample_move();
    oversized.amount = hex("10000000000000005");
    let first = hash_move(&oversized, wrapped_pedersen);
    let second = hash_move(&oversized, wrapped_pedersen);
    assert_eq!(first, second);

    let mut small = sample_move();
    small.amount = dec("5");
    assert_ne!(first, hash_move(&small, wrapped_pedersen));

    // With 3 * left + right the two hashes differ by the 2^241 that the
    // overflow adds to the operation tag.
    let difference = hash_move(&oversized, weighted) - hash_move(&small, weighted);
    assert_eq!(difference, Integer::from(1u32) << 241u64);
}

#[test]
fn limit_order_of_zero_fields_hashes_the_tag_alone() {
    let zero = Integer::from(0u32);
    let result = get_limit_order_msg(&zero, &zero, true, &zero, &zero, &zero, &zero, 0, 0, 0, weighted);
    assert_eq!(
        result,
        hex("6000000000000000000000000000000000000000000000000000000000000")
    );
}

#[test]
fn transfer_of_zero_fields_hashes_the_tag_alone() {
    let zero = Integer::from(0u32);
    let result = get_transfer_msg(&zero, &zero, 0, 0, 0, &zero, 0, weighted);
    assert_eq!(
        result,
        hex("8000000000000000000000000000000000000000000000000000000000000")
    );
}
