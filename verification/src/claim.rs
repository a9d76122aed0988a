use vstd::prelude::*;
use crate::token_model::{
    collateral_backs, lemma_full_redemption_value, spec_full_redemption, ShareMint, TokenAccount,
    Vault, LAMPORTS_PER_SOL, SHARES_DECIMALS,
};
use crate::word_market::{MarketStatus, Outcome, WordMarket};

verus! {

/// Why a claim was rejected.
#[derive(Clone, Copy, PartialEq, Eq, Structural, Debug)]
pub enum ClaimError {
    /// The market has no outcome to claim against yet.
    MarketNotResolved,
    /// The caller holds no winning shares.
    NothingToClaim,
}

/// Redeem the caller's entire winning holding of a resolved market: burn
/// every winning share base unit the caller holds and pay out one full
/// unit price per whole share from the vault, decrementing the market's
/// collateral total in the same atomic step. The payout bypasses the
/// escrow: the returned lamport amount goes straight to the caller's
/// wallet. The losing holding is never touched, a rejected claim changes
/// nothing, and under the solvency invariant — which every claim
/// preserves — the payout can never exceed the vault's balance.
pub fn handle_claim(
    market: &mut WordMarket,
    vault: &mut Vault,
    user_yes_account: &mut TokenAccount,
    user_no_account: &mut TokenAccount,
    yes_mint: &mut ShareMint,
    no_mint: &mut ShareMint,
) -> (r: Result<u64, ClaimError>)
    requires
        // the addressing layer hands in the accounts the market names
        old(yes_mint).id == old(market).yes_mint,
        old(no_mint).id == old(market).no_mint,
        old(user_yes_account).mint_id == old(market).yes_mint,
        old(user_no_account).mint_id == old(market).no_mint,
        // the token issuer keeps any one holding within the supply
        old(user_yes_account).amount <= old(yes_mint).supply,
        old(user_no_account).amount <= old(no_mint).supply,
        // the standing solvency invariant of the market being claimed
        collateral_backs(*old(market), *old(vault), *old(yes_mint), *old(no_mint)),
    ensures
        r is Err ==> {
            &&& *final(market) == *old(market)
            &&& *final(vault) == *old(vault)
            &&& *final(user_yes_account) == *old(user_yes_account)
            &&& *final(user_no_account) == *old(user_no_account)
            &&& *final(yes_mint) == *old(yes_mint)
            &&& *final(no_mint) == *old(no_mint)
        },
        match r {
            Ok(payout) => {
                &&& old(market).status is Resolved
                &&& old(market).outcome is Some
                &&& ({
                    let won = old(market).outcome->0;
                    let held = if won is Yes {
                        old(user_yes_account).amount
                    } else {
                        old(user_no_account).amount
                    };
                    &&& held > 0
                    &&& payout == spec_full_redemption(held)
                    &&& payout <= old(vault).balance
                    &&& payout <= old(market).total_collateral
                    &&& final(vault).balance == old(vault).balance - payout
                    &&& *final(market) == (WordMarket {
                        total_collateral: (old(market).total_collateral - payout) as u64,
                        ..*old(market)
                    })
                    &&& (won is Yes ==> {
                        &&& *final(user_yes_account) == (TokenAccount {
                            amount: 0,
                            ..*old(user_yes_account)
                        })
                        &&& *final(yes_mint) == (ShareMint {
                            supply: (old(yes_mint).supply - held) as u64,
                            ..*old(yes_mint)
                        })
                        &&& *final(user_no_account) == *old(user_no_account)
                        &&& *final(no_mint) == *old(no_mint)
                    })
                    &&& (won is No ==> {
                        &&& *final(user_no_account) == (TokenAccount {
                            amount: 0,
                            ..*old(user_no_account)
                        })
                        &&& *final(no_mint) == (ShareMint {
                            supply: (old(no_mint).supply - held) as u64,
                            ..*old(no_mint)
                        })
                        &&& *final(user_yes_account) == *old(user_yes_account)
                        &&& *final(yes_mint) == *old(yes_mint)
                    })
                })
            },
            Err(ClaimError::MarketNotResolved) => {
                ||| !(old(market).status is Resolved)
                ||| old(market).outcome is None
            },
            Err(ClaimError::NothingToClaim) => {
                &&& old(market).status is Resolved
                &&& old(market).outcome is Some
                &&& (if old(market).outcome->0 is Yes {
                    old(user_yes_account).amount
                } else {
                    old(user_no_account).amount
                }) == 0
            },
        },
        // a claim moves lamports and shares, never the lifecycle
        old(market).wf() ==> final(market).wf(),
        // solvency: every claim, accepted or not, preserves the invariant
        collateral_backs(*final(market), *final(vault), *final(yes_mint), *final(no_mint)),
        // no double claim: a holder with no winning shares is refused with
        // `NothingToClaim`, and with nothing else; since a completed claim
        // zeroes the caller's winning holding, claiming again gets exactly
        // this refusal
        r == Result::<u64, ClaimError>::Err(ClaimError::NothingToClaim) <==> {
            &&& old(market).status is Resolved
            &&& old(market).outcome is Some
            &&& (if old(market).outcome->0 is Yes {
                old(user_yes_account).amount
            } else {
                old(user_no_account).amount
            }) == 0
        },
{
    if market.status != MarketStatus::Resolved {
        return Err(ClaimError::MarketNotResolved);
    }
    let won = if let Some(o) = market.outcome {
        o
    } else {
        return Err(ClaimError::MarketNotResolved);
    };
    let held: u64 = match won {
        Outcome::Yes => user_yes_account.amount,
        Outcome::No => user_no_account.amount,
    };
    if held == 0 {
        return Err(ClaimError::NothingToClaim);
    }
    proof {
        lemma_full_redemption_value(held);
    }
    let payout128: u128 = (LAMPORTS_PER_SOL as u128) * (held as u128) / (SHARES_DECIMALS as u128);
    assert(payout128 == spec_full_redemption(held));
    let payout: u64 = payout128 as u64;
    match won {
        Outcome::Yes => {
            yes_mint.supply = yes_mint.supply - held;
            user_yes_account.amount = 0;
        },
        Outcome::No => {
            no_mint.supply = no_mint.supply - held;
            user_no_account.amount = 0;
        },
    }
    vault.balance = vault.balance - payout;
    market.total_collateral = market.total_collateral - payout;
    Ok(payout)
}

} // verus!
