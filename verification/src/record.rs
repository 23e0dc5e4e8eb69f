//! Transaction records and what a history of them adds up to.

use crate::clock::spec_fixed_date_time;
use chrono::NaiveDateTime;
use vstd::prelude::*;

verus! {

/// The two directions in which shares can move.
#[derive(Clone, Copy, Debug, PartialEq, Eq)]
pub enum TransactionType {
    /// Shares were bought: the holding grows.
    Purchase,
    /// Shares were sold: the holding shrinks.
    Sell,
}

/// One completed transaction. A record is written once, when the transaction
/// is applied, and never changed afterwards.
#[derive(Clone, Copy, Debug, PartialEq, Eq)]
pub struct PurchaseRecord {
    /// When the transaction was recorded: always the fixed instant.
    pub date: NaiveDateTime,
    /// How many shares moved; never zero in a recorded transaction.
    pub shares: u32,
    /// In which direction they moved.
    pub transaction_type: TransactionType,
}

impl PurchaseRecord {
    /// The record that a transaction of `shares` shares leaves behind.
    pub open spec fn stamped(shares: u32, transaction_type: TransactionType) -> PurchaseRecord {
        PurchaseRecord { date: spec_fixed_date_time(), shares, transaction_type }
    }

    /// Whether the record can stand in a history: it moves at least one share
    /// and bears the fixed instant.
    pub open spec fn wf(self) -> bool {
        self.shares > 0 && self.date == spec_fixed_date_time()
    }

    /// What the record contributes to a holding: its shares, counted
    /// positive for a purchase and negative for a sale.
    pub open spec fn signed_shares(self) -> int {
        match self.transaction_type {
            TransactionType::Purchase => self.shares as int,
            TransactionType::Sell => -(self.shares as int),
        }
    }
}

/// The holding that a history adds up to: purchases minus sales.
pub open spec fn net_shares(records: Seq<PurchaseRecord>) -> int
    decreases records.len(),
{
    if records.len() == 0 {
        0
    } else {
        net_shares(records.drop_last()) + records.last().signed_shares()
    }
}

/// Whether `records` can be the history of a symbol: every record is
/// [`well formed`](PurchaseRecord::wf), and after each of them, in order, the
/// holding was a share count (never negative, never past `u32::MAX`).
pub open spec fn valid_history(records: Seq<PurchaseRecord>) -> bool {
    &&& forall|i: int| 0 <= i < records.len() ==> (#[trigger] records[i]).wf()
    &&& forall|n: int|
        0 <= n <= records.len() ==> 0 <= #[trigger] net_shares(records.take(n)) <= u32::MAX
}

/// Appending a record adds its signed shares to the net.
pub proof fn lemma_net_shares_push(records: Seq<PurchaseRecord>, record: PurchaseRecord)
    ensures
        net_shares(records.push(record)) == net_shares(records) + record.signed_shares(),
{
    assert(records.push(record).drop_last() =~= records);
}

/// A valid history stays valid when a well-formed record is appended that
/// leaves a holding that is a share count.
pub proof fn lemma_valid_history_push(records: Seq<PurchaseRecord>, record: PurchaseRecord)
    requires
        valid_history(records),
        record.wf(),
        0 <= net_shares(records) + record.signed_shares() <= u32::MAX,
    ensures
        valid_history(records.push(record)),
{
    let longer = records.push(record);
    lemma_net_shares_push(records, record);
    assert forall|n: int| 0 <= n <= longer.len() implies 0 <= #[trigger] net_shares(
        longer.take(n),
    ) <= u32::MAX by {
        if n <= records.len() {
            assert(longer.take(n) =~= records.take(n));
        } else {
            assert(longer.take(n) =~= longer);
        }
    }
}

} // verus!
