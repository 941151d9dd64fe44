//! Single-use redeemable checks backed by escrowed token balances.
//!
//! A check reserves funds in a vault whose only authorized mover is an
//! authority derived from the check's own address and a one-byte nonce.
//! Cashing the check moves exactly the reserved amount out of the vault
//! and burns the check, so it can be cashed at most once.

pub mod address;
pub mod authority;
pub mod error;
pub mod ledger;
pub mod check;
pub mod visitor;
