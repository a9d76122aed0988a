use vstd::prelude::*;
use vstd::string::StrSliceExecFns;
use crate::word_market::{MarketStatus, WordMarket};

verus! {

/// Why creating a market was rejected.
#[derive(Clone, Copy, PartialEq, Eq, Structural, Debug)]
pub enum CreateMarketError {
    /// The label must be 32 characters or fewer.
    LabelTooLong,
}

/// Build the record of a fresh market: no collateral yet, status `Active`,
/// no outcome. The identities of the two share mints and of the vault are
/// derived from the market's own identity by the addressing layer and are
/// handed in here; `authority` alone may later pause or resolve the market.
pub fn handle_create_market(
    authority: u64,
    market_id: u64,
    word_index: u16,
    label: String,
    yes_mint: u64,
    no_mint: u64,
    vault: u64,
    bump: u8,
    vault_bump: u8,
) -> (r: Result<WordMarket, CreateMarketError>)
    ensures
        match r {
            Ok(m) => {
                &&& label@.len() <= 32
                &&& m.authority == authority
                &&& m.market_id == market_id
                &&& m.word_index == word_index
                &&& m.label@ == label@
                &&& m.yes_mint == yes_mint
                &&& m.no_mint == no_mint
                &&& m.vault == vault
                &&& m.total_collateral == 0
                &&& m.status is Active
                &&& m.outcome is None
                &&& m.bump == bump
                &&& m.vault_bump == vault_bump
                &&& m.wf()
            },
            Err(e) => {
                &&& e == CreateMarketError::LabelTooLong
                &&& label@.len() > 32
            },
        },
{
    if label.as_str().unicode_len() > 32 {
        return Err(CreateMarketError::LabelTooLong);
    }
    Ok(
        WordMarket {
            authority,
            market_id,
            word_index,
            label,
            yes_mint,
            no_mint,
            vault,
            total_collateral: 0,
            status: MarketStatus::Active,
            outcome: None,
            bump,
            vault_bump,
        },
    )
}

} // verus!
