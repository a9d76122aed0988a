use mention_market::addressing::{derive_no_mint_id, derive_vault_id, derive_yes_mint_id};
use mention_market::claim::{handle_claim, ClaimError};
use mention_market::create_market::{handle_create_market, CreateMarketError};
use mention_market::deposit::{handle_deposit, ErrorCode};
use mention_market::pause_market::{handle_pause_market, PauseMarketError};
use mention_market::resolve_market::{handle_resolve_market, ResolveMarketError};
use mention_market::settle_match::{handle_settle_match, SettleMatchError};
use mention_market::token_model::{ShareMint, TokenAccount, Vault, LAMPORTS_PER_SOL};
use mention_market::user_escrow::UserEscrow;
use mention_market::withdraw::{handle_withdraw, WithdrawError};
use mention_market::word_market::{MarketStatus, Outcome};

fn escrow(owner: u64, balance: u64, locked: u64) -> UserEscrow {
    UserEscrow { owner, balance, locked, bump: 0 }
}

fn active_market() -> mention_market::word_market::WordMarket {
    handle_create_market(9, 7, 3, String::from("economy"), 100, 101, 102, 0, 0).unwrap()
}

#[test]
fn derived_identities_are_deterministic_and_distinct() {
    assert_eq!(derive_yes_mint_id(7), 29);
    assert_eq!(derive_no_mint_id(7), 30);
    assert_eq!(derive_vault_id(7), 31);
    // the same market always resolves to the same records
    assert_eq!(derive_yes_mint_id(7), derive_yes_mint_id(7));
    // no role of one market collides with any role of a neighbour
    let seven = [derive_yes_mint_id(7), derive_no_mint_id(7), derive_vault_id(7)];
    let eight = [derive_yes_mint_id(8), derive_no_mint_id(8), derive_vault_id(8)];
    for a in seven {
        for b in eight {
            assert_ne!(a, b);
        }
    }
}

#[test]
fn deposit_credits_balance_and_sets_owner() {
    let mut e = escrow(0, 0, 0);
    assert_eq!(handle_deposit(&mut e, 5, 1_000), Ok(()));
    assert_eq!(e.owner, 5);
    assert_eq!(e.balance, 1_000);
    assert_eq!(e.locked, 0);
    assert_eq!(handle_deposit(&mut e, 5, 250), Ok(()));
    assert_eq!(e.balance, 1_250);
}

#[test]
fn deposit_of_zero_is_refused() {
    let mut e = escrow(5, 700, 40);
    assert_eq!(handle_deposit(&mut e, 5, 0), Err(ErrorCode::ZeroAmount));
    assert_eq!(e.balance, 700);
    assert_eq!(e.locked, 40);
}

#[test]
fn withdraw_debits_only_unlocked_balance() {
    let mut e = escrow(5, 700, 40);
    assert_eq!(handle_withdraw(&mut e, 5, 300), Ok(()));
    assert_eq!(e.balance, 400);
    assert_eq!(e.locked, 40);
}

#[test]
fn withdraw_of_zero_is_refused() {
    let mut e = escrow(5, 700, 40);
    assert_eq!(handle_withdraw(&mut e, 5, 0), Err(WithdrawError::ZeroAmount));
    assert_eq!(e.balance, 700);
}

#[test]
fn withdraw_beyond_balance_is_refused() {
    let mut e = escrow(5, 700, 40);
    // locked funds cannot be withdrawn: 701 > 700 even though 740 are held
    assert_eq!(handle_withdraw(&mut e, 5, 701), Err(WithdrawError::InsufficientBalance));
    assert_eq!(e.balance, 700);
    assert_eq!(e.locked, 40);
}

#[test]
fn withdraw_by_stranger_is_refused() {
    let mut e = escrow(5, 700, 40);
    assert_eq!(handle_withdraw(&mut e, 6, 100), Err(WithdrawError::NotOwner));
    assert_eq!(e.balance, 700);
}

#[test]
fn create_market_starts_active_and_empty() {
    let m = active_market();
    assert_eq!(m.authority, 9);
    assert_eq!(m.market_id, 7);
    assert_eq!(m.word_index, 3);
    assert_eq!(m.label, "economy");
    assert_eq!(m.yes_mint, 100);
    assert_eq!(m.no_mint, 101);
    assert_eq!(m.vault, 102);
    assert_eq!(m.total_collateral, 0);
    assert_eq!(m.status, MarketStatus::Active);
    assert_eq!(m.outcome, None);
}

#[test]
fn create_market_refuses_long_label() {
    let long = "x".repeat(33);
    let r = handle_create_market(9, 7, 3, long, 100, 101, 102, 0, 0);
    assert!(matches!(r, Err(CreateMarketError::LabelTooLong)));
    let exact = "y".repeat(32);
    assert!(handle_create_market(9, 7, 3, exact, 100, 101, 102, 0, 0).is_ok());
}

#[test]
fn pause_blocks_settlement_and_needs_authority() {
    let mut m = active_market();
    assert_eq!(handle_pause_market(&mut m, 8), Err(PauseMarketError::NotOwner));
    assert_eq!(m.status, MarketStatus::Active);
    assert_eq!(handle_pause_market(&mut m, 9), Ok(()));
    assert_eq!(m.status, MarketStatus::Paused);
    assert_eq!(handle_pause_market(&mut m, 9), Err(PauseMarketError::MarketNotActive));
}

#[test]
fn resolve_fixes_outcome_once_and_needs_authority() {
    let mut m = active_market();
    assert_eq!(handle_resolve_market(&mut m, 8, Outcome::Yes), Err(ResolveMarketError::NotOwner));
    assert_eq!(m.outcome, None);
    assert_eq!(handle_resolve_market(&mut m, 9, Outcome::Yes), Ok(()));
    assert_eq!(m.status, MarketStatus::Resolved);
    assert_eq!(m.outcome, Some(Outcome::Yes));
    assert_eq!(
        handle_resolve_market(&mut m, 9, Outcome::No),
        Err(ResolveMarketError::AlreadyResolved)
    );
    assert_eq!(m.outcome, Some(Outcome::Yes));
}

#[test]
fn paused_market_can_still_be_resolved() {
    let mut m = active_market();
    handle_pause_market(&mut m, 9).unwrap();
    assert_eq!(handle_resolve_market(&mut m, 9, Outcome::No), Ok(()));
    assert_eq!(m.outcome, Some(Outcome::No));
}

struct SettleWorld {
    market: mention_market::word_market::WordMarket,
    vault: Vault,
    yes_escrow: UserEscrow,
    no_escrow: UserEscrow,
    yes_tokens: TokenAccount,
    no_tokens: TokenAccount,
    yes_mint: ShareMint,
    no_mint: ShareMint,
}

fn settle_world() -> SettleWorld {
    SettleWorld {
        market: active_market(),
        vault: Vault { balance: 0 },
        yes_escrow: escrow(1, 0, 1_000_000),
        no_escrow: escrow(2, 0, 1_000_000),
        yes_tokens: TokenAccount { mint_id: 100, owner: 1, amount: 0 },
        no_tokens: TokenAccount { mint_id: 101, owner: 2, amount: 0 },
        yes_mint: ShareMint { id: 100, supply: 0 },
        no_mint: ShareMint { id: 101, supply: 0 },
    }
}

fn settle(w: &mut SettleWorld, price: u64, quantity: u64) -> Result<(), SettleMatchError> {
    handle_settle_match(
        &mut w.market,
        &mut w.vault,
        &mut w.yes_escrow,
        &mut w.no_escrow,
        &mut w.yes_tokens,
        &mut w.no_tokens,
        &mut w.yes_mint,
        &mut w.no_mint,
        price,
        quantity,
    )
}

#[test]
fn settle_refuses_price_at_or_outside_the_bounds() {
    let mut w = settle_world();
    assert_eq!(settle(&mut w, 0, 1_000), Err(SettleMatchError::InvalidPrice));
    assert_eq!(settle(&mut w, LAMPORTS_PER_SOL, 1_000), Err(SettleMatchError::InvalidPrice));
    assert_eq!(settle(&mut w, LAMPORTS_PER_SOL + 1, 1_000), Err(SettleMatchError::InvalidPrice));
    assert_eq!(w.vault.balance, 0);
    assert_eq!(w.yes_escrow.locked, 1_000_000);
}

#[test]
fn settle_refuses_inactive_market() {
    let mut w = settle_world();
    handle_pause_market(&mut w.market, 9).unwrap();
    assert_eq!(settle(&mut w, 400_000_000, 1_000), Err(SettleMatchError::MarketNotActive));
    assert_eq!(w.yes_mint.supply, 0);
}

#[test]
fn settle_refuses_underfunded_sides() {
    let mut w = settle_world();
    // 2_000 whole shares need 1_000_000_000_000 lamports from each side
    w.yes_escrow.locked = 100;
    assert_eq!(
        settle(&mut w, 500_000_000, 2_000_000_000),
        Err(SettleMatchError::InsufficientYesFunds)
    );
    w.yes_escrow.locked = 1_000_000_000_000;
    assert_eq!(
        settle(&mut w, 500_000_000, 2_000_000_000),
        Err(SettleMatchError::InsufficientNoFunds)
    );
    assert_eq!(w.yes_escrow.locked, 1_000_000_000_000);
    assert_eq!(w.no_escrow.locked, 1_000_000);
    assert_eq!(w.vault.balance, 0);
}

#[test]
fn settle_handles_the_smallest_match() {
    let mut w = settle_world();
    // one base unit at the lowest price: YES cost truncates to zero and
    // the NO side funds the full thousand lamports of collateral
    assert_eq!(settle(&mut w, 1, 1), Ok(()));
    assert_eq!(w.yes_escrow.locked, 1_000_000);
    assert_eq!(w.no_escrow.locked, 999_000);
    assert_eq!(w.vault.balance, 1_000);
    assert_eq!(w.market.total_collateral, 1_000);
    assert_eq!(w.yes_tokens.amount, 1);
    assert_eq!(w.no_tokens.amount, 1);
}

#[test]
fn settle_at_the_highest_price_charges_the_yes_side_almost_all() {
    let mut w = settle_world();
    assert_eq!(settle(&mut w, 999_999_999, 1_000), Ok(()));
    // 999_999_999 * 1_000 / 1_000_000 == 999_999 with remainder, NO pays 1 + the truncated lamport
    assert_eq!(1_000_000 - w.yes_escrow.locked, 999_999);
    assert_eq!(1_000_000 - w.no_escrow.locked, 1);
    assert_eq!(w.vault.balance, 1_000_000);
}

#[test]
fn claim_on_unresolved_market_is_refused() {
    let mut w = settle_world();
    settle(&mut w, 400_000_000, 1_000).unwrap();
    let mut user_yes = w.yes_tokens;
    let mut user_no = TokenAccount { mint_id: 101, owner: 1, amount: 0 };
    let r = handle_claim(
        &mut w.market,
        &mut w.vault,
        &mut user_yes,
        &mut user_no,
        &mut w.yes_mint,
        &mut w.no_mint,
    );
    assert_eq!(r, Err(ClaimError::MarketNotResolved));
    assert_eq!(user_yes.amount, 1_000);
}

#[test]
fn claim_with_zero_winning_balance_is_refused() {
    let mut w = settle_world();
    settle(&mut w, 400_000_000, 1_000).unwrap();
    handle_resolve_market(&mut w.market, 9, Outcome::Yes).unwrap();
    let mut empty_yes = TokenAccount { mint_id: 100, owner: 3, amount: 0 };
    let mut empty_no = TokenAccount { mint_id: 101, owner: 3, amount: 0 };
    let r = handle_claim(
        &mut w.market,
        &mut w.vault,
        &mut empty_yes,
        &mut empty_no,
        &mut w.yes_mint,
        &mut w.no_mint,
    );
    assert_eq!(r, Err(ClaimError::NothingToClaim));
    assert_eq!(w.market.total_collateral, 1_000_000);
}
