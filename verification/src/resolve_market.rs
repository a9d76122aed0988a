use vstd::prelude::*;
use crate::word_market::{MarketStatus, Outcome, WordMarket};

verus! {

/// Why resolving a market was rejected.
#[derive(Clone, Copy, PartialEq, Eq, Structural, Debug)]
pub enum ResolveMarketError {
    /// Only the market authority may resolve.
    NotOwner,
    /// The outcome is already fixed; resolution is terminal.
    AlreadyResolved,
}

/// Fix the winning side of a market: allowed from `Active` or `Paused`,
/// only by the market's authority, and only while no outcome is recorded.
/// On success the status becomes `Resolved` and the outcome is set, which
/// unlocks claims; nothing else of the record changes, and no transition
/// ever leaves `Resolved`. A rejected resolution changes nothing.
pub fn handle_resolve_market(market: &mut WordMarket, caller: u64, outcome: Outcome) -> (r: Result<
    (),
    ResolveMarketError,
>)
    ensures
        r is Err ==> *final(market) == *old(market),
        match r {
            Ok(()) => {
                &&& caller == old(market).authority
                &&& old(market).outcome is None
                &&& !(old(market).status is Resolved)
                &&& *final(market) == (WordMarket {
                    status: MarketStatus::Resolved,
                    outcome: Some(outcome),
                    ..*old(market)
                })
            },
            Err(ResolveMarketError::NotOwner) => caller != old(market).authority,
            Err(ResolveMarketError::AlreadyResolved) => {
                &&& caller == old(market).authority
                &&& (old(market).outcome is Some || old(market).status is Resolved)
            },
        },
        old(market).wf() ==> final(market).wf(),
{
    if caller != market.authority {
        return Err(ResolveMarketError::NotOwner);
    }
    if market.outcome.is_some() || market.status == MarketStatus::Resolved {
        return Err(ResolveMarketError::AlreadyResolved);
    }
    market.status = MarketStatus::Resolved;
    market.outcome = Some(outcome);
    Ok(())
}

} // verus!
