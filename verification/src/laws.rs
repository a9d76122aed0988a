use vstd::prelude::*;
use crate::token_model::{
    collateral_backs, lemma_full_redemption_value, spec_full_redemption, ShareMint, Vault,
    LAMPORTS_PER_BASE_UNIT, LAMPORTS_PER_SOL,
};
use crate::user_escrow::UserEscrow;
use crate::word_market::{MarketStatus, Outcome, WordMarket};

verus! {

/// The accounting quantities of one market that the ledger laws speak of:
/// the lifecycle state, the pooled collateral, the vault's lamports, the
/// outstanding supply of each share side, and the cumulative totals ever
/// minted to each side.
pub struct BookView {
    pub status: MarketStatus,
    pub outcome: Option<Outcome>,
    pub collateral: int,
    pub vault: int,
    pub yes_supply: int,
    pub no_supply: int,
    pub yes_minted: int,
    pub no_minted: int,
}

/// The book a set of concrete records describes. The cumulative minted
/// totals are history rather than record fields, so they are carried
/// alongside.
pub open spec fn book_of(
    m: WordMarket,
    v: Vault,
    yes: ShareMint,
    no: ShareMint,
    yes_minted: int,
    no_minted: int,
) -> BookView {
    BookView {
        status: m.status,
        outcome: m.outcome,
        collateral: m.total_collateral as int,
        vault: v.balance as int,
        yes_supply: yes.supply as int,
        no_supply: no.supply as int,
        yes_minted,
        no_minted,
    }
}

/// One operation of the engine, seen at the book: a settlement of a
/// matched pair, a pause, a resolution, or one holder's full claim.
pub enum LedgerEvent {
    Settle { price: int, quantity: int },
    Pause,
    Resolve { outcome: Outcome },
    Claim { burned: int },
}

/// A market starts active, with no outcome, no collateral and no shares.
pub open spec fn book_init(b: BookView) -> bool {
    &&& b.status is Active
    &&& b.outcome is None
    &&& b.collateral == 0
    &&& b.vault == 0
    &&& b.yes_supply == 0
    &&& b.no_supply == 0
    &&& b.yes_minted == 0
    &&& b.no_minted == 0
}

/// The exhaustive transition table of the engine, exactly as the handlers
/// implement it: each event carries its guard and its effect, and no other
/// transition exists. In particular no transition leaves `Resolved`, and
/// none leads from `Paused` back to `Active`.
pub open spec fn book_step(pre: BookView, ev: LedgerEvent, post: BookView) -> bool {
    match ev {
        LedgerEvent::Settle { price, quantity } => {
            &&& pre.status is Active
            &&& 0 < price < LAMPORTS_PER_SOL
            &&& 0 < quantity
            &&& post == (BookView {
                collateral: pre.collateral + LAMPORTS_PER_BASE_UNIT * quantity,
                vault: pre.vault + LAMPORTS_PER_BASE_UNIT * quantity,
                yes_supply: pre.yes_supply + quantity,
                no_supply: pre.no_supply + quantity,
                yes_minted: pre.yes_minted + quantity,
                no_minted: pre.no_minted + quantity,
                ..pre
            })
        },
        LedgerEvent::Pause => {
            &&& pre.status is Active
            &&& post == (BookView { status: MarketStatus::Paused, ..pre })
        },
        LedgerEvent::Resolve { outcome } => {
            &&& !(pre.status is Resolved)
            &&& pre.outcome is None
            &&& post == (BookView {
                status: MarketStatus::Resolved,
                outcome: Some(outcome),
                ..pre
            })
        },
        LedgerEvent::Claim { burned } => {
            &&& pre.status is Resolved
            &&& pre.outcome is Some
            &&& 0 < burned
            &&& burned <= (if pre.outcome->0 is Yes {
                pre.yes_supply
            } else {
                pre.no_supply
            })
            &&& post == (BookView {
                collateral: pre.collateral - LAMPORTS_PER_BASE_UNIT * burned,
                vault: pre.vault - LAMPORTS_PER_BASE_UNIT * burned,
                yes_supply: if pre.outcome->0 is Yes {
                    pre.yes_supply - burned
                } else {
                    pre.yes_supply
                },
                no_supply: if pre.outcome->0 is No {
                    pre.no_supply - burned
                } else {
                    pre.no_supply
                },
                ..pre
            })
        },
    }
}

/// `bn` is reachable from `b0` by running the events of `evs` in order.
pub open spec fn book_reaches(b0: BookView, evs: Seq<LedgerEvent>, bn: BookView) -> bool
    decreases evs.len(),
{
    if evs.len() == 0 {
        bn == b0
    } else {
        exists|mid: BookView|
            #[trigger] book_step(b0, evs[0], mid) && book_reaches(mid, evs.drop_first(), bn)
    }
}

/// The inductive ledger invariant. It bundles the laws of the book:
/// the vault holds exactly the pooled collateral; both sides have been
/// minted the same cumulative total; a side that can still win is fully
/// backed at one unit price per whole share; and the losing side's supply
/// is only ever left untouched, never redeemed.
pub open spec fn book_inv(b: BookView) -> bool {
    &&& b.vault == b.collateral
    &&& b.yes_minted == b.no_minted
    &&& 0 <= b.yes_supply
    &&& 0 <= b.no_supply
    &&& (b.outcome is Some <==> b.status is Resolved)
    &&& match b.outcome {
        None => {
            &&& b.yes_supply == b.yes_minted
            &&& b.no_supply == b.no_minted
            &&& b.collateral == b.yes_supply * LAMPORTS_PER_BASE_UNIT
            &&& b.collateral == b.no_supply * LAMPORTS_PER_BASE_UNIT
        },
        Some(Outcome::Yes) => {
            &&& b.no_supply == b.no_minted
            &&& b.collateral == b.yes_supply * LAMPORTS_PER_BASE_UNIT
        },
        Some(Outcome::No) => {
            &&& b.yes_supply == b.yes_minted
            &&& b.collateral == b.no_supply * LAMPORTS_PER_BASE_UNIT
        },
    }
}

/// Every single operation preserves the ledger invariant.
pub proof fn lemma_step_preserves_inv(pre: BookView, ev: LedgerEvent, post: BookView)
    requires
        book_inv(pre),
        book_step(pre, ev, post),
    ensures
        book_inv(post),
{
}

/// The ledger invariant carries through any run of operations.
pub proof fn lemma_run_preserves_inv(b0: BookView, evs: Seq<LedgerEvent>, bn: BookView)
    requires
        book_inv(b0),
        book_reaches(b0, evs, bn),
    ensures
        book_inv(bn),
    decreases evs.len(),
{
    if evs.len() != 0 {
        let mid = choose|mid: BookView|
            #[trigger] book_step(b0, evs[0], mid) && book_reaches(mid, evs.drop_first(), bn);
        lemma_step_preserves_inv(b0, evs[0], mid);
        lemma_run_preserves_inv(mid, evs.drop_first(), bn);
    }
}

/// Conservation and share symmetry, for every sequence of operations on a
/// market: however a fresh market is settled, paused, resolved and
/// claimed, the vault's lamports always equal the market's pooled
/// collateral, and the cumulative YES shares ever minted always equal the
/// cumulative NO shares ever minted.
pub proof fn lemma_ledger_laws(b0: BookView, evs: Seq<LedgerEvent>, bn: BookView)
    requires
        book_init(b0),
        book_reaches(b0, evs, bn),
    ensures
        book_inv(bn),
        bn.vault == bn.collateral,
        bn.yes_minted == bn.no_minted,
{
    lemma_run_preserves_inv(b0, evs, bn);
}

/// The lamports a run of operations pays out to claimants: one unit price
/// per whole share burned, summed over the claims of the run.
pub open spec fn total_claims_paid(evs: Seq<LedgerEvent>) -> int
    decreases evs.len(),
{
    if evs.len() == 0 {
        0
    } else {
        (match evs[0] {
            LedgerEvent::Claim { burned } => LAMPORTS_PER_BASE_UNIT * burned,
            _ => 0,
        }) + total_claims_paid(evs.drop_first())
    }
}

/// Solvency across a resolved market's afterlife: from resolution on, the
/// outcome never changes and only claims run; the claims paid sum to
/// exactly the drop in pooled collateral, and so can never exceed the
/// collateral held at resolution time.
pub proof fn lemma_claims_bounded_by_collateral(
    b0: BookView,
    evs: Seq<LedgerEvent>,
    bn: BookView,
)
    requires
        book_inv(b0),
        b0.status is Resolved,
        book_reaches(b0, evs, bn),
    ensures
        book_inv(bn),
        bn.status is Resolved,
        bn.outcome == b0.outcome,
        total_claims_paid(evs) == b0.collateral - bn.collateral,
        total_claims_paid(evs) <= b0.collateral,
    decreases evs.len(),
{
    if evs.len() != 0 {
        let mid = choose|mid: BookView|
            #[trigger] book_step(b0, evs[0], mid) && book_reaches(mid, evs.drop_first(), bn);
        lemma_step_preserves_inv(b0, evs[0], mid);
        lemma_claims_bounded_by_collateral(mid, evs.drop_first(), bn);
    }
}

/// Solvency, final state: once the last outstanding winning share has been
/// redeemed, the pooled collateral — and with it the vault — is exactly
/// empty. Nothing is left behind, and nothing was ever missing.
pub proof fn lemma_all_claimed_drains_pool(b: BookView)
    requires
        book_inv(b),
        b.outcome is Some,
        (if b.outcome->0 is Yes {
            b.yes_supply
        } else {
            b.no_supply
        }) == 0,
    ensures
        b.collateral == 0,
        b.vault == 0,
{
}

/// The funds of one user's escrow, as the escrow laws speak of them.
pub struct EscrowView {
    pub balance: int,
    pub locked: int,
}

/// The funds a concrete escrow record describes.
pub open spec fn escrow_view_of(e: UserEscrow) -> EscrowView {
    EscrowView { balance: e.balance as int, locked: e.locked as int }
}

/// One operation that can move a user's funds, seen at the escrow: a
/// deposit in, a withdrawal out, or the debit of one settlement the user
/// is a party to. No other operation of the engine takes an escrow.
pub enum EscrowEvent {
    Deposit { amount: int },
    Withdraw { amount: int },
    SettleDebit { cost: int },
}

/// The exact effect of each operation on an escrow, as the handlers
/// implement it: deposits credit the balance, withdrawals debit only the
/// balance, and a settlement debits only the locked funds.
pub open spec fn escrow_step(pre: EscrowView, ev: EscrowEvent, post: EscrowView) -> bool {
    match ev {
        EscrowEvent::Deposit { amount } => {
            &&& 0 < amount
            &&& post == (EscrowView { balance: pre.balance + amount, ..pre })
        },
        EscrowEvent::Withdraw { amount } => {
            &&& 0 < amount <= pre.balance
            &&& post == (EscrowView { balance: pre.balance - amount, ..pre })
        },
        EscrowEvent::SettleDebit { cost } => {
            &&& 0 <= cost <= pre.locked
            &&& post == (EscrowView { locked: pre.locked - cost, ..pre })
        },
    }
}

/// `en` is reachable from `e0` by the escrow operations of `evs` in order.
pub open spec fn escrow_reaches(e0: EscrowView, evs: Seq<EscrowEvent>, en: EscrowView) -> bool
    decreases evs.len(),
{
    if evs.len() == 0 {
        en == e0
    } else {
        exists|mid: EscrowView|
            #[trigger] escrow_step(e0, evs[0], mid) && escrow_reaches(mid, evs.drop_first(), en)
    }
}

/// The net lamports one escrow operation moves in (positive) or out
/// (negative) of the user's funds.
pub open spec fn funds_moved(ev: EscrowEvent) -> int {
    match ev {
        EscrowEvent::Deposit { amount } => amount,
        EscrowEvent::Withdraw { amount } => -amount,
        EscrowEvent::SettleDebit { cost } => -cost,
    }
}

/// The net lamports a whole run of escrow operations moves.
pub open spec fn total_funds_moved(evs: Seq<EscrowEvent>) -> int
    decreases evs.len(),
{
    if evs.len() == 0 {
        0
    } else {
        funds_moved(evs[0]) + total_funds_moved(evs.drop_first())
    }
}

/// Escrow conservation, for every sequence of operations on one escrow:
/// the user's funds — balance plus locked — change exactly by the
/// deposits in, minus the withdrawals out, minus the locked costs of the
/// settlements the user was a party to, and via no other path.
pub proof fn lemma_escrow_conservation(e0: EscrowView, evs: Seq<EscrowEvent>, en: EscrowView)
    requires
        escrow_reaches(e0, evs, en),
    ensures
        en.balance + en.locked == e0.balance + e0.locked + total_funds_moved(evs),
    decreases evs.len(),
{
    if evs.len() != 0 {
        let mid = choose|mid: EscrowView|
            #[trigger] escrow_step(e0, evs[0], mid) && escrow_reaches(mid, evs.drop_first(), en);
        lemma_escrow_conservation(mid, evs.drop_first(), en);
    }
}

/// A completed deposit is one `Deposit` step of the owner's escrow funds:
/// the exact effect of `handle_deposit` on the record.
pub proof fn lemma_deposit_refines_escrow_step(e0: UserEscrow, e1: UserEscrow, amount: u64)
    requires
        amount > 0,
        e1.balance == e0.balance + amount,
        e1.locked == e0.locked,
    ensures
        escrow_step(
            escrow_view_of(e0),
            EscrowEvent::Deposit { amount: amount as int },
            escrow_view_of(e1),
        ),
{
}

/// A completed withdrawal is one `Withdraw` step of the owner's escrow
/// funds: the exact effect of `handle_withdraw` on the record.
pub proof fn lemma_withdraw_refines_escrow_step(e0: UserEscrow, e1: UserEscrow, amount: u64)
    requires
        0 < amount <= e0.balance,
        e1.balance == e0.balance - amount,
        e1.locked == e0.locked,
    ensures
        escrow_step(
            escrow_view_of(e0),
            EscrowEvent::Withdraw { amount: amount as int },
            escrow_view_of(e1),
        ),
{
}

/// One side of a completed settlement is one `SettleDebit` step of that
/// party's escrow funds: the exact effect of `handle_settle_match` on
/// either escrow, with `cost` the side's own cost.
pub proof fn lemma_settle_refines_escrow_step(e0: UserEscrow, e1: UserEscrow, cost: int)
    requires
        0 <= cost <= e0.locked,
        e1.locked == e0.locked - cost,
        e1.balance == e0.balance,
    ensures
        escrow_step(escrow_view_of(e0), EscrowEvent::SettleDebit { cost }, escrow_view_of(e1)),
{
}

/// Resolving a market keeps the solvency backing: fixing the outcome turns
/// "both sides fully backed" into "the winning side fully backed" without
/// moving a lamport or a share.
pub proof fn lemma_resolve_preserves_backing(
    m0: WordMarket,
    m1: WordMarket,
    v: Vault,
    yes: ShareMint,
    no: ShareMint,
    outcome: Outcome,
)
    requires
        collateral_backs(m0, v, yes, no),
        m0.outcome is None,
        m1 == (WordMarket {
            status: MarketStatus::Resolved,
            outcome: Some(outcome),
            ..m0
        }),
    ensures
        collateral_backs(m1, v, yes, no),
{
}

/// A freshly created market is solvent: no collateral, no shares.
pub proof fn lemma_fresh_market_backed(m: WordMarket, v: Vault, yes: ShareMint, no: ShareMint)
    requires
        m.total_collateral == 0,
        m.outcome is None,
        v.balance == 0,
        yes.supply == 0,
        no.supply == 0,
    ensures
        collateral_backs(m, v, yes, no),
{
}

/// A completed settlement is one `Settle` step of the book: the concrete
/// effects of `handle_settle_match` on the records are exactly the
/// abstract transition, with `quantity` added to both cumulative minted
/// totals.
pub proof fn lemma_settle_refines_step(
    m0: WordMarket,
    m1: WordMarket,
    v0: Vault,
    v1: Vault,
    yes0: ShareMint,
    yes1: ShareMint,
    no0: ShareMint,
    no1: ShareMint,
    yes_minted: int,
    no_minted: int,
    price: u64,
    quantity: u64,
)
    requires
        m0.status is Active,
        0 < price < LAMPORTS_PER_SOL,
        quantity > 0,
        m0.total_collateral + spec_full_redemption(quantity) <= u64::MAX,
        v0.balance + spec_full_redemption(quantity) <= u64::MAX,
        yes0.supply + quantity <= u64::MAX,
        no0.supply + quantity <= u64::MAX,
        m1 == (WordMarket {
            total_collateral: (m0.total_collateral + spec_full_redemption(quantity)) as u64,
            ..m0
        }),
        v1.balance == v0.balance + spec_full_redemption(quantity),
        yes1 == (ShareMint { supply: (yes0.supply + quantity) as u64, ..yes0 }),
        no1 == (ShareMint { supply: (no0.supply + quantity) as u64, ..no0 }),
    ensures
        book_step(
            book_of(m0, v0, yes0, no0, yes_minted, no_minted),
            LedgerEvent::Settle { price: price as int, quantity: quantity as int },
            book_of(m1, v1, yes1, no1, yes_minted + quantity, no_minted + quantity),
        ),
{
    lemma_full_redemption_value(quantity);
}

/// A completed pause is one `Pause` step of the book: it blocks further
/// settlements and moves nothing.
pub proof fn lemma_pause_refines_step(
    m0: WordMarket,
    m1: WordMarket,
    v: Vault,
    yes: ShareMint,
    no: ShareMint,
    yes_minted: int,
    no_minted: int,
)
    requires
        m0.status is Active,
        m1 == (WordMarket { status: MarketStatus::Paused, ..m0 }),
    ensures
        book_step(
            book_of(m0, v, yes, no, yes_minted, no_minted),
            LedgerEvent::Pause,
            book_of(m1, v, yes, no, yes_minted, no_minted),
        ),
{
}

/// A completed resolution is one `Resolve` step of the book: it fixes the
/// outcome and moves nothing.
pub proof fn lemma_resolve_refines_step(
    m0: WordMarket,
    m1: WordMarket,
    v: Vault,
    yes: ShareMint,
    no: ShareMint,
    yes_minted: int,
    no_minted: int,
    outcome: Outcome,
)
    requires
        !(m0.status is Resolved),
        m0.outcome is None,
        m1 == (WordMarket {
            status: MarketStatus::Resolved,
            outcome: Some(outcome),
            ..m0
        }),
    ensures
        book_step(
            book_of(m0, v, yes, no, yes_minted, no_minted),
            LedgerEvent::Resolve { outcome },
            book_of(m1, v, yes, no, yes_minted, no_minted),
        ),
{
}

/// A completed claim is one `Claim` step of the book: the concrete effects
/// of `handle_claim` on the records are exactly the abstract transition
/// that burns the caller's whole winning holding.
pub proof fn lemma_claim_refines_step(
    m0: WordMarket,
    m1: WordMarket,
    v0: Vault,
    v1: Vault,
    yes0: ShareMint,
    yes1: ShareMint,
    no0: ShareMint,
    no1: ShareMint,
    yes_minted: int,
    no_minted: int,
    held: u64,
    payout: u64,
)
    requires
        m0.status is Resolved,
        m0.outcome is Some,
        held > 0,
        held <= (if m0.outcome->0 is Yes {
            yes0.supply
        } else {
            no0.supply
        }),
        payout == spec_full_redemption(held),
        payout <= m0.total_collateral,
        payout <= v0.balance,
        m1 == (WordMarket { total_collateral: (m0.total_collateral - payout) as u64, ..m0 }),
        v1.balance == v0.balance - payout,
        m0.outcome->0 is Yes ==> yes1 == (ShareMint {
            supply: (yes0.supply - held) as u64,
            ..yes0
        }) && no1 == no0,
        m0.outcome->0 is No ==> no1 == (ShareMint { supply: (no0.supply - held) as u64, ..no0 })
            && yes1 == yes0,
    ensures
        book_step(
            book_of(m0, v0, yes0, no0, yes_minted, no_minted),
            LedgerEvent::Claim { burned: held as int },
            book_of(m1, v1, yes1, no1, yes_minted, no_minted),
        ),
{
    lemma_full_redemption_value(held);
}

} // verus!
