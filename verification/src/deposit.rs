use vstd::prelude::*;
use crate::user_escrow::UserEscrow;

verus! {

/// Why a deposit was rejected.
#[derive(Clone, Copy, PartialEq, Eq, Structural, Debug)]
pub enum ErrorCode {
    /// The amount must be greater than zero.
    ZeroAmount,
}

/// Credit `amount` lamports to `user`'s escrow, recording `user` as owner
/// (the escrow record is created blank on first deposit). The lamports are
/// assumed already transferred into the escrow's custody as part of the
/// same atomic call; this handler only accounts for them. Locked funds are
/// untouched, and a rejected deposit changes nothing.
pub fn handle_deposit(escrow: &mut UserEscrow, user: u64, amount: u64) -> (r: Result<
    (),
    ErrorCode,
>)
    requires
        old(escrow).balance + amount <= u64::MAX,
    ensures
        match r {
            Ok(()) => {
                &&& amount > 0
                &&& final(escrow).owner == user
                &&& final(escrow).balance == old(escrow).balance + amount
                &&& final(escrow).locked == old(escrow).locked
                &&& final(escrow).bump == old(escrow).bump
                &&& final(escrow).funds() == old(escrow).funds() + amount
            },
            Err(e) => {
                &&& e == ErrorCode::ZeroAmount
                &&& amount == 0
                &&& *final(escrow) == *old(escrow)
            },
        },
{
    if amount == 0 {
        return Err(ErrorCode::ZeroAmount);
    }
    escrow.owner = user;
    escrow.balance = escrow.balance + amount;
    Ok(())
}

} // verus!
