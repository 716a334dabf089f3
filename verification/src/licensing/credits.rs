//! The credit wallet: a local balance with a pending delta that is
//! reconciled against the billing service by the surrounding process.

use vstd::prelude::*;
use crate::errors::LicensingError;

verus! {

/// The local credit balance and what of it still awaits reconciliation.
#[derive(Clone, Copy, PartialEq, Eq, Structural, Debug)]
pub struct CreditWallet {
    pub balance: i64,
    pub pending_delta: i64,
    pub last_sync_ms: Option<u64>,
}

impl CreditWallet {
    /// An empty wallet that has never been reconciled.
    pub fn new() -> (r: Self)
        ensures
            r.balance == 0,
            r.pending_delta == 0,
            r.last_sync_ms is None,
    {
        CreditWallet { balance: 0, pending_delta: 0, last_sync_ms: Option::None }
    }

    /// Grants credits, recording them as pending reconciliation.
    pub fn add(&mut self, amount: i64)
        requires
            i64::MIN <= old(self).balance + amount <= i64::MAX,
            i64::MIN <= old(self).pending_delta + amount <= i64::MAX,
        ensures
            final(self).balance == old(self).balance + amount,
            final(self).pending_delta == old(self).pending_delta + amount,
            final(self).last_sync_ms == old(self).last_sync_ms,
    {
        self.balance = self.balance + amount;
        self.pending_delta = self.pending_delta + amount;
    }

    /// Spends credits; refused when the balance cannot cover them.
    pub fn consume(&mut self, amount: i64) -> (r: Result<(), LicensingError>)
        requires
            i64::MIN <= old(self).balance - amount <= i64::MAX,
            i64::MIN <= old(self).pending_delta - amount <= i64::MAX,
        ensures
            r is Ok <==> old(self).balance - amount >= 0,
            r is Ok ==> {
                &&& final(self).balance == old(self).balance - amount
                &&& final(self).pending_delta == old(self).pending_delta - amount
                &&& final(self).last_sync_ms == old(self).last_sync_ms
            },
            r matches Err(e) ==> e is InsufficientCredits && *final(self) == *old(self),
    {
        if self.balance - amount < 0 {
            return Err(LicensingError::InsufficientCredits);
        }
        self.balance = self.balance - amount;
        self.pending_delta = self.pending_delta - amount;
        Ok(())
    }

    /// What a reconciliation must report to the billing service:
    /// nothing when no delta is pending, otherwise the delta's size.
    pub fn sync_request_amount(&self) -> (r: Option<i64>)
        requires
            self.pending_delta > i64::MIN,
        ensures
            self.pending_delta == 0 ==> r is None,
            self.pending_delta != 0 ==> (r matches Some(a)
                && a == (if self.pending_delta < 0 { -self.pending_delta } else { self.pending_delta as int })),
    {
        if self.pending_delta == 0 {
            Option::None
        } else if self.pending_delta < 0 {
            Option::Some(-self.pending_delta)
        } else {
            Option::Some(self.pending_delta)
        }
    }

    /// Records a completed reconciliation: the pending delta is settled
    /// and the reconciliation time remembered.
    pub fn apply_sync(&mut self, now_ms: u64)
        ensures
            final(self).balance == old(self).balance,
            final(self).pending_delta == 0,
            final(self).last_sync_ms == Option::Some(now_ms),
    {
        self.pending_delta = 0;
        self.last_sync_ms = Option::Some(now_ms);
    }
}

} // verus!
