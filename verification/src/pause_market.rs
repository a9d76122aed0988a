use vstd::prelude::*;
use crate::word_market::{MarketStatus, WordMarket};

verus! {

/// Why pausing a market was rejected.
#[derive(Clone, Copy, PartialEq, Eq, Structural, Debug)]
pub enum PauseMarketError {
    /// Only the market authority may pause.
    NotOwner,
    /// Only an active market can be paused.
    MarketNotActive,
}

/// Move an active market to `Paused`, blocking new settlements without
/// fixing an outcome. Only the market's authority may pause; a rejected
/// pause changes nothing. No transition leads back from `Paused` to
/// `Active`: resolution is the only way out.
pub fn handle_pause_market(market: &mut WordMarket, caller: u64) -> (r: Result<
    (),
    PauseMarketError,
>)
    ensures
        r is Err ==> *final(market) == *old(market),
        match r {
            Ok(()) => {
                &&& caller == old(market).authority
                &&& old(market).status is Active
                &&& *final(market) == (WordMarket { status: MarketStatus::Paused, ..*old(market) })
            },
            Err(PauseMarketError::NotOwner) => caller != old(market).authority,
            Err(PauseMarketError::MarketNotActive) => {
                &&& caller == old(market).authority
                &&& !(old(market).status is Active)
            },
        },
        old(market).wf() ==> final(market).wf(),
{
    if caller != market.authority {
        return Err(PauseMarketError::NotOwner);
    }
    if market.status != MarketStatus::Active {
        return Err(PauseMarketError::MarketNotActive);
    }
    market.status = MarketStatus::Paused;
    Ok(())
}

} // verus!
