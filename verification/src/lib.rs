//! Canonical message hashes for limit orders and transfers.
//!
//! A message is packed into big-integer words by a fixed sequence of
//! shift-and-add steps, and the words are folded, together with the asset
//! identifiers, through a two-argument hash function that the caller
//! supplies.

pub mod integer;
pub mod packing;
pub mod chain;
pub mod limit_order;
pub mod transfer;
pub mod messages;
