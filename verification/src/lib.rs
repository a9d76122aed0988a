//! Accounting engine for a binary-outcome prediction market.
//!
//! Users escrow funds; a matched (price, quantity) pair settles by moving
//! locked funds from both sides into a market vault and minting opposing
//! YES/NO shares; an authority resolves the market; winning shares are then
//! redeemed against the vault. The library keeps escrow balances, locked
//! funds, share supplies and pooled collateral consistent under a strict
//! solvency invariant: the vault always covers every outstanding winning
//! claim in full.
//!
//! Identity creation, signature checks, the fungible-token primitives and
//! the surrounding dispatch layer are external collaborators; the library
//! works on plain ledger records and every handler is fail-atomic.

pub mod addressing;
pub mod claim;
pub mod create_market;
pub mod deposit;
pub mod laws;
pub mod pause_market;
pub mod resolve_market;
pub mod settle_match;
pub mod token_model;
pub mod user_escrow;
pub mod withdraw;
pub mod word_market;
