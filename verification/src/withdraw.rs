use vstd::prelude::*;
use crate::user_escrow::UserEscrow;

verus! {

/// Why a withdrawal was rejected.
#[derive(Clone, Copy, PartialEq, Eq, Structural, Debug)]
pub enum WithdrawError {
    /// The amount must be greater than zero.
    ZeroAmount,
    /// The amount exceeds the unlocked balance.
    InsufficientBalance,
    /// Only the escrow owner may withdraw.
    NotOwner,
}

/// Debit `amount` lamports from the caller's unlocked balance. The lamports
/// leave custody atomically with the decrement, so no state with a debited
/// balance but unsent funds is ever observable; locked funds can never be
/// withdrawn, and a rejected withdrawal changes nothing.
pub fn handle_withdraw(escrow: &mut UserEscrow, caller: u64, amount: u64) -> (r: Result<
    (),
    WithdrawError,
>)
    ensures
        r is Err ==> *final(escrow) == *old(escrow),
        match r {
            Ok(()) => {
                &&& caller == old(escrow).owner
                &&& amount > 0
                &&& amount <= old(escrow).balance
                &&& final(escrow).owner == old(escrow).owner
                &&& final(escrow).balance == old(escrow).balance - amount
                &&& final(escrow).locked == old(escrow).locked
                &&& final(escrow).bump == old(escrow).bump
                &&& final(escrow).funds() == old(escrow).funds() - amount
            },
            Err(WithdrawError::NotOwner) => caller != old(escrow).owner,
            Err(WithdrawError::ZeroAmount) => caller == old(escrow).owner && amount == 0,
            Err(WithdrawError::InsufficientBalance) => {
                &&& caller == old(escrow).owner
                &&& amount > 0
                &&& amount > old(escrow).balance
            },
        },
{
    if caller != escrow.owner {
        return Err(WithdrawError::NotOwner);
    }
    if amount == 0 {
        return Err(WithdrawError::ZeroAmount);
    }
    if amount > escrow.balance {
        return Err(WithdrawError::InsufficientBalance);
    }
    escrow.balance = escrow.balance - amount;
    Ok(())
}

} // verus!
