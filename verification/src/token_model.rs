use vstd::prelude::*;
use vstd::arithmetic::div_mod::lemma_div_by_multiple;
use crate::word_market::{Outcome, WordMarket};

verus! {

/// Lamports per whole currency unit: the fixed redemption rate of one whole
/// share, and the upper bound of a settlement price.
pub const LAMPORTS_PER_SOL: u64 = 1_000_000_000;

/// Share-quantity granularity: base units per whole share.
pub const SHARES_DECIMALS: u64 = 1_000_000;

/// Lamports of collateral that back one share base unit:
/// `LAMPORTS_PER_SOL / SHARES_DECIMALS`.
pub const LAMPORTS_PER_BASE_UNIT: u64 = 1_000;

/// The collateral pool of one market: a passive lamport-holding account
/// whose balance must always equal the market's `total_collateral`.
pub struct Vault {
    /// Lamports held.
    pub balance: u64,
}

/// One of the two fungible share kinds of a market, reduced to what the
/// accounting reads of the token issuer: its identity and its outstanding
/// supply in base units.
pub struct ShareMint {
    /// Identity of the mint.
    pub id: u64,
    /// Outstanding share base units: minted by settlement, burned by claim.
    pub supply: u64,
}

/// One user's holding of one share kind, reduced to what the accounting
/// reads of the token issuer.
pub struct TokenAccount {
    /// Identity of the mint the held shares belong to.
    pub mint_id: u64,
    /// Identity of the holder.
    pub owner: u64,
    /// Held share base units.
    pub amount: u64,
}

/// Lamports that redeem `base_units` share base units in full, and equally
/// the lamports that fully collateralise them: one unit price per whole
/// share, `LAMPORTS_PER_SOL * base_units / SHARES_DECIMALS`.
pub open spec fn spec_full_redemption(base_units: u64) -> int {
    LAMPORTS_PER_SOL * base_units / (SHARES_DECIMALS as int)
}

/// Redeeming in full costs exactly `LAMPORTS_PER_BASE_UNIT` lamports per
/// share base unit, with no remainder: the unit price is a whole multiple
/// of the share granularity.
pub proof fn lemma_full_redemption_value(base_units: u64)
    ensures
        spec_full_redemption(base_units) == LAMPORTS_PER_BASE_UNIT * base_units,
{
    let q: int = base_units as int;
    assert((1000 * q) * 1_000_000 == 1_000_000_000 * q) by (nonlinear_arith);
    lemma_div_by_multiple(1000 * q, 1_000_000);
}

/// The standing solvency invariant of one market: the vault holds exactly
/// the pooled collateral, and the pool covers a full redemption of every
/// outstanding share of each side that can still win. Before resolution
/// both sides are fully backed; after resolution the pool tracks the
/// outstanding winning side, so it drains to zero exactly when the last
/// winning share is redeemed.
pub open spec fn collateral_backs(m: WordMarket, v: Vault, yes: ShareMint, no: ShareMint) -> bool {
    &&& v.balance == m.total_collateral
    &&& match m.outcome {
        None => {
            &&& m.total_collateral == yes.supply * LAMPORTS_PER_BASE_UNIT
            &&& m.total_collateral == no.supply * LAMPORTS_PER_BASE_UNIT
        },
        Some(Outcome::Yes) => m.total_collateral == yes.supply * LAMPORTS_PER_BASE_UNIT,
        Some(Outcome::No) => m.total_collateral == no.supply * LAMPORTS_PER_BASE_UNIT,
    }
}

} // verus!
