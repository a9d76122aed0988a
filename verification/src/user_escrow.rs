use vstd::prelude::*;

verus! {

/// Per-user holding record separating freely withdrawable funds from funds
/// committed to open orders. All amounts are lamports (the smallest currency
/// unit). The funds a user controls are `balance + locked`; only deposit,
/// withdraw and settlement ever move them.
pub struct UserEscrow {
    /// Identity of the wallet that owns this escrow.
    pub owner: u64,
    /// Available lamports: usable for new orders or withdrawal.
    pub balance: u64,
    /// Lamports committed to open orders: not withdrawable. Settlement
    /// debits this field, never `balance`; locking itself happens upstream.
    pub locked: u64,
    /// Derivation seed of the record's address, kept with the record.
    pub bump: u8,
}

impl UserEscrow {
    /// Total funds this escrow controls on the user's behalf.
    pub open spec fn funds(self) -> int {
        self.balance + self.locked
    }
}

} // verus!
