use vstd::prelude::*;

verus! {

/// Escrow balance pooled from all deposits. The host ledger keeps the actual
/// funds under a derived authority bound to the pool; this record tracks the
/// balance the protocol may move. It is credited only by deposits and debited
/// only by withdrawals.
pub struct Vault {
    /// Pooled value, in the same units as deposit and withdrawal amounts.
    pub balance: u64,
}

impl Vault {
    /// An empty vault, as it stands when the pool is created.
    pub fn new() -> (v: Vault)
        ensures
            v.balance == 0,
    {
        Vault { balance: 0 }
    }

    /// Receives a deposit into the escrow.
    pub fn credit(&mut self, amount: u64)
        requires
            old(self).balance + amount <= u64::MAX,
        ensures
            final(self).balance == old(self).balance + amount,
    {
        self.balance = self.balance + amount;
    }

    /// Releases part of the escrow to a withdrawer.
    pub fn debit(&mut self, amount: u64)
        requires
            amount <= old(self).balance,
        ensures
            final(self).balance == old(self).balance - amount,
    {
        self.balance = self.balance - amount;
    }
}

} // verus!
