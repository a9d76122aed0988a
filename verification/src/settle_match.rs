use vstd::prelude::*;
use vstd::arithmetic::div_mod::{lemma_div_is_ordered, lemma_div_pos_is_pos};
use vstd::arithmetic::mul::{lemma_mul_inequality, lemma_mul_nonnegative};
use crate::token_model::{
    collateral_backs, lemma_full_redemption_value, spec_full_redemption, ShareMint, TokenAccount,
    Vault, LAMPORTS_PER_SOL, SHARES_DECIMALS,
};
use crate::user_escrow::UserEscrow;
use crate::word_market::{MarketStatus, WordMarket};

verus! {

/// Why settling a matched pair was rejected.
#[derive(Clone, Copy, PartialEq, Eq, Structural, Debug)]
pub enum SettleMatchError {
    /// The market is not accepting settlements.
    MarketNotActive,
    /// The price must lie strictly between 0 and one unit price.
    InvalidPrice,
    /// The YES buyer's locked funds do not cover the YES cost.
    InsufficientYesFunds,
    /// The NO buyer's locked funds do not cover the NO cost.
    InsufficientNoFunds,
}

/// Lamports the YES buyer pays for `quantity` share base units at `price`
/// lamports per whole share: `price * quantity / SHARES_DECIMALS`,
/// truncating.
pub open spec fn spec_yes_cost(price: u64, quantity: u64) -> int {
    price * quantity / (SHARES_DECIMALS as int)
}

/// Lamports the NO buyer pays: the exact complement of the YES cost, so
/// that the two sides together always fund one full redemption per share
/// and no lamport is lost to rounding.
pub open spec fn spec_no_cost(price: u64, quantity: u64) -> int {
    spec_full_redemption(quantity) - spec_yes_cost(price, quantity)
}

/// For any price up to one unit price, the two complementary costs are
/// both between zero and the full collateral of the match, and they sum to
/// it exactly.
pub proof fn lemma_cost_split(price: u64, quantity: u64)
    requires
        price <= LAMPORTS_PER_SOL,
    ensures
        0 <= spec_yes_cost(price, quantity),
        spec_yes_cost(price, quantity) <= spec_full_redemption(quantity),
        0 <= spec_no_cost(price, quantity),
        spec_no_cost(price, quantity) <= spec_full_redemption(quantity),
        spec_yes_cost(price, quantity) + spec_no_cost(price, quantity) == spec_full_redemption(
            quantity,
        ),
{
    let p: int = price as int;
    let q: int = quantity as int;
    let s: int = SHARES_DECIMALS as int;
    lemma_mul_nonnegative(p, q);
    lemma_div_pos_is_pos(p * q, s);
    lemma_mul_inequality(p, LAMPORTS_PER_SOL as int, q);
    lemma_div_is_ordered(p * q, (LAMPORTS_PER_SOL as int) * q, s);
    lemma_mul_nonnegative(LAMPORTS_PER_SOL as int, q);
    lemma_div_pos_is_pos((LAMPORTS_PER_SOL as int) * q, s);
}

/// Execute one matched trade as a single atomic unit. The YES buyer pays
/// `spec_yes_cost`, the NO buyer the exact complement; both are debited
/// from locked funds only, the sum moves into the vault and into the
/// market's collateral total, and `quantity` share base units are minted
/// to each side. Every precondition failure leaves every record unchanged,
/// and a completed settlement preserves the solvency invariant.
pub fn handle_settle_match(
    market: &mut WordMarket,
    vault: &mut Vault,
    yes_buyer_escrow: &mut UserEscrow,
    no_buyer_escrow: &mut UserEscrow,
    yes_buyer_tokens: &mut TokenAccount,
    no_buyer_tokens: &mut TokenAccount,
    yes_mint: &mut ShareMint,
    no_mint: &mut ShareMint,
    price: u64,
    quantity: u64,
) -> (r: Result<(), SettleMatchError>)
    requires
        // the addressing layer hands in the accounts the market names
        old(yes_mint).id == old(market).yes_mint,
        old(no_mint).id == old(market).no_mint,
        old(yes_buyer_tokens).mint_id == old(market).yes_mint,
        old(no_buyer_tokens).mint_id == old(market).no_mint,
        // machine limits: the moved lamports and minted shares must fit
        old(vault).balance + spec_full_redemption(quantity) <= u64::MAX,
        old(market).total_collateral + spec_full_redemption(quantity) <= u64::MAX,
        old(yes_mint).supply + quantity <= u64::MAX,
        old(no_mint).supply + quantity <= u64::MAX,
        old(yes_buyer_tokens).amount + quantity <= u64::MAX,
        old(no_buyer_tokens).amount + quantity <= u64::MAX,
        quantity > 0,
    ensures
        r is Err ==> {
            &&& *final(market) == *old(market)
            &&& *final(vault) == *old(vault)
            &&& *final(yes_buyer_escrow) == *old(yes_buyer_escrow)
            &&& *final(no_buyer_escrow) == *old(no_buyer_escrow)
            &&& *final(yes_buyer_tokens) == *old(yes_buyer_tokens)
            &&& *final(no_buyer_tokens) == *old(no_buyer_tokens)
            &&& *final(yes_mint) == *old(yes_mint)
            &&& *final(no_mint) == *old(no_mint)
        },
        match r {
            Ok(()) => {
                &&& old(market).status is Active
                &&& 0 < price < LAMPORTS_PER_SOL
                &&& old(yes_buyer_escrow).locked >= spec_yes_cost(price, quantity)
                &&& old(no_buyer_escrow).locked >= spec_no_cost(price, quantity)
                &&& *final(yes_buyer_escrow) == (UserEscrow {
                    locked: (old(yes_buyer_escrow).locked - spec_yes_cost(price, quantity)) as u64,
                    ..*old(yes_buyer_escrow)
                })
                &&& *final(no_buyer_escrow) == (UserEscrow {
                    locked: (old(no_buyer_escrow).locked - spec_no_cost(price, quantity)) as u64,
                    ..*old(no_buyer_escrow)
                })
                &&& final(vault).balance == old(vault).balance + spec_full_redemption(quantity)
                &&& *final(market) == (WordMarket {
                    total_collateral: (old(market).total_collateral + spec_full_redemption(
                        quantity,
                    )) as u64,
                    ..*old(market)
                })
                &&& *final(yes_buyer_tokens) == (TokenAccount {
                    amount: (old(yes_buyer_tokens).amount + quantity) as u64,
                    ..*old(yes_buyer_tokens)
                })
                &&& *final(no_buyer_tokens) == (TokenAccount {
                    amount: (old(no_buyer_tokens).amount + quantity) as u64,
                    ..*old(no_buyer_tokens)
                })
                &&& *final(yes_mint) == (ShareMint {
                    supply: (old(yes_mint).supply + quantity) as u64,
                    ..*old(yes_mint)
                })
                &&& *final(no_mint) == (ShareMint {
                    supply: (old(no_mint).supply + quantity) as u64,
                    ..*old(no_mint)
                })
            },
            Err(SettleMatchError::MarketNotActive) => !(old(market).status is Active),
            Err(SettleMatchError::InvalidPrice) => {
                &&& old(market).status is Active
                &&& (price == 0 || price >= LAMPORTS_PER_SOL)
            },
            Err(SettleMatchError::InsufficientYesFunds) => {
                &&& old(market).status is Active
                &&& 0 < price < LAMPORTS_PER_SOL
                &&& old(yes_buyer_escrow).locked < spec_yes_cost(price, quantity)
            },
            Err(SettleMatchError::InsufficientNoFunds) => {
                &&& old(market).status is Active
                &&& 0 < price < LAMPORTS_PER_SOL
                &&& old(yes_buyer_escrow).locked >= spec_yes_cost(price, quantity)
                &&& old(no_buyer_escrow).locked < spec_no_cost(price, quantity)
            },
        },
        // conservation: the market's collateral and the vault move in step
        r is Ok ==> final(market).total_collateral - old(market).total_collateral == final(
            vault
        ).balance - old(vault).balance,
        // share symmetry: both sides are always minted the same quantity
        r is Ok ==> final(yes_mint).supply - old(yes_mint).supply == final(no_mint).supply - old(
            no_mint
        ).supply,
        // a settlement only ever debits locked funds, never balances
        r is Ok ==> final(yes_buyer_escrow).funds() == old(yes_buyer_escrow).funds()
            - spec_yes_cost(price, quantity) && final(no_buyer_escrow).funds() == old(
            no_buyer_escrow
        ).funds() - spec_no_cost(price, quantity),
        // a settlement moves lamports and shares, never the lifecycle
        old(market).wf() ==> final(market).wf(),
        // solvency: a settlement on an unresolved market preserves backing
        r is Ok && old(market).outcome is None && collateral_backs(
            *old(market),
            *old(vault),
            *old(yes_mint),
            *old(no_mint),
        ) ==> collateral_backs(*final(market), *final(vault), *final(yes_mint), *final(no_mint)),
{
    if market.status != MarketStatus::Active {
        return Err(SettleMatchError::MarketNotActive);
    }
    if price == 0 || price >= LAMPORTS_PER_SOL {
        return Err(SettleMatchError::InvalidPrice);
    }
    proof {
        lemma_cost_split(price, quantity);
        lemma_full_redemption_value(quantity);
    }
    let total128: u128 = (LAMPORTS_PER_SOL as u128) * (quantity as u128) / (SHARES_DECIMALS
        as u128);
    let yes128: u128 = (price as u128) * (quantity as u128) / (SHARES_DECIMALS as u128);
    assert(total128 == spec_full_redemption(quantity));
    assert(yes128 == spec_yes_cost(price, quantity));
    let total: u64 = total128 as u64;
    let yes_cost: u64 = yes128 as u64;
    let no_cost: u64 = total - yes_cost;
    if yes_buyer_escrow.locked < yes_cost {
        return Err(SettleMatchError::InsufficientYesFunds);
    }
    if no_buyer_escrow.locked < no_cost {
        return Err(SettleMatchError::InsufficientNoFunds);
    }
    yes_buyer_escrow.locked = yes_buyer_escrow.locked - yes_cost;
    no_buyer_escrow.locked = no_buyer_escrow.locked - no_cost;
    vault.balance = vault.balance + total;
    yes_buyer_tokens.amount = yes_buyer_tokens.amount + quantity;
    no_buyer_tokens.amount = no_buyer_tokens.amount + quantity;
    yes_mint.supply = yes_mint.supply + quantity;
    no_mint.supply = no_mint.supply + quantity;
    market.total_collateral = market.total_collateral + total;
    Ok(())
}

} // verus!
