use vstd::prelude::*;

verus! {

/// Deterministic keyed addressing: the identities of a market's two share
/// mints and of its vault are derived from the market identity alone, so
/// the same inputs always resolve to the same record and every (market,
/// role) pair has exactly one canonical identity. A user's escrow is keyed
/// by the owner identity itself.
pub open spec fn spec_yes_mint_id(market_id: u64) -> int {
    4 * market_id + 1
}

/// The derived identity of a market's NO share mint.
pub open spec fn spec_no_mint_id(market_id: u64) -> int {
    4 * market_id + 2
}

/// The derived identity of a market's collateral vault.
pub open spec fn spec_vault_id(market_id: u64) -> int {
    4 * market_id + 3
}

/// Derive the YES mint identity of `market_id`.
pub fn derive_yes_mint_id(market_id: u64) -> (r: u64)
    requires
        4 * market_id + 3 <= u64::MAX,
    ensures
        r == spec_yes_mint_id(market_id),
{
    4 * market_id + 1
}

/// Derive the NO mint identity of `market_id`.
pub fn derive_no_mint_id(market_id: u64) -> (r: u64)
    requires
        4 * market_id + 3 <= u64::MAX,
    ensures
        r == spec_no_mint_id(market_id),
{
    4 * market_id + 2
}

/// Derive the vault identity of `market_id`.
pub fn derive_vault_id(market_id: u64) -> (r: u64)
    requires
        4 * market_id + 3 <= u64::MAX,
    ensures
        r == spec_vault_id(market_id),
{
    4 * market_id + 3
}

/// One canonical record per (market, role): the three identities derived
/// for one market never collide with each other, and no derived identity
/// of one market is a derived identity of any other market.
pub proof fn lemma_derived_ids_injective(a: u64, b: u64)
    ensures
        spec_yes_mint_id(a) != spec_no_mint_id(b),
        spec_yes_mint_id(a) != spec_vault_id(b),
        spec_no_mint_id(a) != spec_vault_id(b),
        a != b ==> spec_yes_mint_id(a) != spec_yes_mint_id(b),
        a != b ==> spec_no_mint_id(a) != spec_no_mint_id(b),
        a != b ==> spec_vault_id(a) != spec_vault_id(b),
{
}

} // verus!
