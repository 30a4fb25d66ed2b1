//! Listing a caller's payments, and the ledger's statistics.
//!
//! Both scan the whole ledger on every call; nothing is cached. The success
//! rate is kept exact, as the fraction of a hundred times the completed
//! payments over all payments; who wants a decimal number divides it out.

use crate::ledger::{record_views, LedgerModel, PaymentLedger};
use crate::payment::{PaymentRecord, PaymentRequest, PaymentStatus};
use vstd::prelude::*;

verus! {

/// The records that `user` created, in the order of their creation.
pub open spec fn payments_of(records: Seq<PaymentRecord>, user: Seq<char>) -> Seq<PaymentRecord> {
    records.filter(|r: PaymentRecord| r.user_principal == user)
}

/// The completed records.
pub open spec fn completed(records: Seq<PaymentRecord>) -> Seq<PaymentRecord> {
    records.filter(|r: PaymentRecord| r.status == PaymentStatus::Completed)
}

/// The sum of the amounts of all records, whatever their status.
pub open spec fn total_volume(records: Seq<PaymentRecord>) -> int
    decreases records.len(),
{
    if records.len() == 0 {
        0
    } else {
        total_volume(records.drop_last()) + records.last().amount
    }
}

/// A rate in percent, kept exact as a fraction: `numerator / denominator`
/// percent. Nothing is rounded. A denominator of zero stands for the rate zero.
#[derive(Clone, Copy, Debug, PartialEq, Eq)]
pub struct SuccessRate {
    pub numerator: u128,
    pub denominator: u64,
}

/// A rate in percent, as mathematical values.
pub struct Rate {
    pub numerator: nat,
    pub denominator: nat,
}

impl View for SuccessRate {
    type V = Rate;

    open spec fn view(&self) -> Rate {
        Rate { numerator: self.numerator as nat, denominator: self.denominator as nat }
    }
}

/// The share of `completed` in `total`, in percent: `100 * completed / total`
/// as a fraction, and zero when there is nothing to take a share of.
pub open spec fn success_rate(completed: nat, total: nat) -> Rate {
    if total == 0 {
        Rate { numerator: 0, denominator: 0 }
    } else {
        Rate { numerator: 100 * completed, denominator: total }
    }
}

/// Count, volume and success rate of a ledger.
#[derive(Clone, Copy, Debug, PartialEq, Eq)]
pub struct PaymentStats {
    /// The number of records, whatever their status.
    pub total_payments: u64,
    /// The number of completed records.
    pub completed_payments: u64,
    /// The sum of the amounts of all records, in minor units.
    pub total_volume: u128,
    /// The completed records' share of all records, in percent.
    pub success_rate: SuccessRate,
}

/// Statistics, as mathematical values.
pub struct Stats {
    pub total_payments: nat,
    pub completed_payments: nat,
    pub total_volume: int,
    pub success_rate: Rate,
}

impl View for PaymentStats {
    type V = Stats;

    open spec fn view(&self) -> Stats {
        Stats {
            total_payments: self.total_payments as nat,
            completed_payments: self.completed_payments as nat,
            total_volume: self.total_volume as int,
            success_rate: self.success_rate@,
        }
    }
}

/// The statistics of a ledger.
pub open spec fn stats_of(ledger: LedgerModel) -> Stats {
    Stats {
        total_payments: ledger.records.len(),
        completed_payments: completed(ledger.records).len(),
        total_volume: total_volume(ledger.records),
        success_rate: success_rate(completed(ledger.records).len(), ledger.records.len()),
    }
}

impl PaymentLedger {
    /// The payments that `user_principal` created, in the order of their
    /// creation.
    pub fn list_user_payments(&self, user_principal: &str) -> (list: Vec<PaymentRequest>)
        requires
            self.wf(),
        ensures
            record_views(list@) == payments_of(self@.records, user_principal@),
    {
        let payments = self.payments();
        let user = user_principal.to_owned();
        let ghost mine = |r: PaymentRecord| r.user_principal == user_principal@;
        let mut list: Vec<PaymentRequest> = Vec::new();
        let mut i: usize = 0;
        assert(Seq::<PaymentRecord>::empty().filter(mine) =~= Seq::empty()) by {
            reveal(Seq::filter);
        }
        while i < payments.len()
            invariant
                i <= payments.len(),
                user@ == user_principal@,
                mine == |r: PaymentRecord| r.user_principal == user_principal@,
                record_views(list@) == record_views(payments@).take(i as int).filter(mine),
            decreases payments.len() - i,
        {
            let ghost seen = record_views(payments@).take(i as int);
            let ghost next = payments@[i as int]@;
            proof {
                assert(record_views(payments@).take(i + 1) =~= seen.push(next));
                Seq::lemma_filter_push(seen, next, mine);
            }
            if payments[i].user_principal == user {
                list.push(payments[i].clone());
            }
            i += 1;
        }
        assert(record_views(payments@).take(i as int) =~= record_views(payments@));
        list
    }

    /// Count, volume and success rate, computed afresh from the whole ledger.
    pub fn get_payment_stats(&self) -> (stats: PaymentStats)
        requires
            self.wf(),
        ensures
            stats@ == stats_of(self@),
    {
        let payments = self.payments();
        let ghost records = record_views(payments@);
        let ghost done = |r: PaymentRecord| r.status == PaymentStatus::Completed;
        let mut volume: u128 = 0;
        let mut completed_payments: u64 = 0;
        let mut i: usize = 0;
        assert(Seq::<PaymentRecord>::empty().filter(done) =~= Seq::empty()) by {
            reveal(Seq::filter);
        }
        while i < payments.len()
            invariant
                i <= payments.len(),
                self.wf(),
                records == record_views(payments@),
                records == self@.records,
                done == |r: PaymentRecord| r.status == PaymentStatus::Completed,
                volume == total_volume(records.take(i as int)),
                volume <= i * i64::MAX,
                completed_payments == records.take(i as int).filter(done).len(),
                completed_payments <= i,
            decreases payments.len() - i,
        {
            let ghost seen = records.take(i as int);
            let ghost next = payments@[i as int]@;
            proof {
                assert(records.take(i + 1) =~= seen.push(next));
                assert(records.take(i + 1).drop_last() =~= seen);
                Seq::lemma_filter_push(seen, next, done);
                assert(records[i as int] == next);
            }
            volume = volume + payments[i].amount as u128;
            if payments[i].status == PaymentStatus::Completed {
                completed_payments = completed_payments + 1;
            }
            i += 1;
        }
        assert(records.take(i as int) =~= records);
        let total_payments = payments.len() as u64;
        let success_rate = if total_payments == 0 {
            SuccessRate { numerator: 0, denominator: 0 }
        } else {
            SuccessRate {
                numerator: 100 * (completed_payments as u128),
                denominator: total_payments,
            }
        };
        PaymentStats { total_payments, completed_payments, total_volume: volume, success_rate }
    }
}

} // verus!
