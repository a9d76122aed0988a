use vstd::prelude::*;

verus! {

/// Lifecycle of a market. Settlements are accepted only while `Active`;
/// `Paused` blocks new settlements without fixing an outcome; `Resolved`
/// is terminal and unlocks claims.
#[derive(Clone, Copy, PartialEq, Eq, Structural, Debug)]
pub enum MarketStatus {
    Active,
    Paused,
    Resolved,
}

/// The side of a binary market that won.
#[derive(Clone, Copy, PartialEq, Eq, Structural, Debug)]
pub enum Outcome {
    Yes,
    No,
}

/// One binary-outcome market over a word: its authority, the identities of
/// the two opposing share mints and of the collateral vault, the pooled
/// collateral total, and the lifecycle state.
pub struct WordMarket {
    /// Identity allowed to pause and resolve this market.
    pub authority: u64,
    /// Unique market identifier.
    pub market_id: u64,
    /// Index of this word within the market group.
    pub word_index: u16,
    /// The word this market is about, at most 32 characters.
    pub label: String,
    /// Identity of the mint for YES shares.
    pub yes_mint: u64,
    /// Identity of the mint for NO shares.
    pub no_mint: u64,
    /// Identity of the vault that pools the collateral lamports.
    pub vault: u64,
    /// Lamports pooled as collateral: everything moved in by settlements
    /// and not yet paid out by claims.
    pub total_collateral: u64,
    /// Current lifecycle state.
    pub status: MarketStatus,
    /// Winning side; recorded exactly when the market is resolved.
    pub outcome: Option<Outcome>,
    /// Derivation seed of the market record's address.
    pub bump: u8,
    /// Derivation seed of the vault's address.
    pub vault_bump: u8,
}

impl WordMarket {
    /// A market record is well formed when its label fits the bound and an
    /// outcome is recorded exactly when the market is resolved.
    pub open spec fn wf(self) -> bool {
        &&& self.label@.len() <= 32
        &&& (self.outcome is Some <==> self.status is Resolved)
    }
}

} // verus!
