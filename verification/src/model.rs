//! The mathematical model of a portfolio: two maps keyed by symbol, and what
//! a transaction does to them.
//!
//! Nothing here is compiled. The contracts of
//! [`Portfolio`](crate::ledger::Portfolio) are stated over these functions.

use crate::error::{PortfolioError, PortfolioResult};
use crate::record::{net_shares, valid_history, PurchaseRecord, TransactionType};
use vstd::prelude::*;

verus! {

/// What a portfolio is, as a value: the share count of every symbol that was
/// ever traded, and the transactions of each such symbol in the order in
/// which they were applied.
pub struct PortfolioView {
    /// Symbol to current share count. A symbol that is absent counts as zero.
    pub holdings: Map<Seq<char>, u32>,
    /// Symbol to its transactions, oldest first. A symbol that is absent has
    /// no history at all, which is not the same as an empty one.
    pub purchase_records: Map<Seq<char>, Seq<PurchaseRecord>>,
}

impl PortfolioView {
    /// The portfolio in which nothing was ever traded.
    pub open spec fn empty() -> PortfolioView {
        PortfolioView { holdings: Map::empty(), purchase_records: Map::empty() }
    }

    /// Whether no symbol has a holding.
    pub open spec fn is_empty(self) -> bool {
        self.holdings.is_empty()
    }

    /// The shares held of `symbol`: zero where it was never traded.
    pub open spec fn share_count(self, symbol: Seq<char>) -> u32 {
        if self.holdings.contains_key(symbol) {
            self.holdings[symbol]
        } else {
            0
        }
    }

    /// Whether any transaction of `symbol` was ever applied.
    pub open spec fn has_history(self, symbol: Seq<char>) -> bool {
        self.purchase_records.contains_key(symbol)
    }

    /// The transactions of `symbol`, oldest first: none where it was never
    /// traded.
    pub open spec fn history(self, symbol: Seq<char>) -> Seq<PurchaseRecord> {
        if self.purchase_records.contains_key(symbol) {
            self.purchase_records[symbol]
        } else {
            Seq::empty()
        }
    }

    /// The holding of `symbol` that a transaction of `shares` shares would
    /// leave, as a mathematical integer: where it is negative or past
    /// `u32::MAX` the transaction is turned down.
    pub open spec fn count_after(
        self,
        symbol: Seq<char>,
        shares: u32,
        transaction_type: TransactionType,
    ) -> int {
        match transaction_type {
            TransactionType::Purchase => self.share_count(symbol) + shares,
            TransactionType::Sell => self.share_count(symbol) - shares,
        }
    }

    /// Whether the holding of `symbol` can move by `shares`, and if not,
    /// why: a purchase is turned down if the holding would pass `u32::MAX`, a
    /// sale if it asks for more than is held.
    pub open spec fn holding_verdict(
        self,
        symbol: Seq<char>,
        shares: u32,
        transaction_type: TransactionType,
    ) -> PortfolioResult<()> {
        match transaction_type {
            TransactionType::Purchase => if self.share_count(symbol) + shares > u32::MAX {
                Err(PortfolioError::InvalidPurchase)
            } else {
                Ok(())
            },
            TransactionType::Sell => if shares > self.share_count(symbol) {
                Err(PortfolioError::InvalidSell)
            } else {
                Ok(())
            },
        }
    }

    /// Whether a transaction of `shares` shares of `symbol` is applied, and
    /// if not, why: a transaction of zero shares is never applied; any other
    /// is applied exactly if the holding can move by it.
    pub open spec fn verdict(
        self,
        symbol: Seq<char>,
        shares: u32,
        transaction_type: TransactionType,
    ) -> PortfolioResult<()> {
        if shares == 0 {
            Err(PortfolioError::ZeroShares)
        } else {
            self.holding_verdict(symbol, shares, transaction_type)
        }
    }

    /// The portfolio with the holding of `symbol` moved by `shares`, and
    /// nothing else changed.
    pub open spec fn with_holding(
        self,
        symbol: Seq<char>,
        shares: u32,
        transaction_type: TransactionType,
    ) -> PortfolioView
        recommends
            0 <= self.count_after(symbol, shares, transaction_type) <= u32::MAX,
    {
        PortfolioView {
            holdings: self.holdings.insert(
                symbol,
                self.count_after(symbol, shares, transaction_type) as u32,
            ),
            purchase_records: self.purchase_records,
        }
    }

    /// The portfolio with the record of the transaction appended to the
    /// history of `symbol`, and nothing else changed.
    pub open spec fn with_record(
        self,
        symbol: Seq<char>,
        shares: u32,
        transaction_type: TransactionType,
    ) -> PortfolioView {
        PortfolioView {
            holdings: self.holdings,
            purchase_records: self.purchase_records.insert(
                symbol,
                self.history(symbol).push(PurchaseRecord::stamped(shares, transaction_type)),
            ),
        }
    }

    /// The portfolio after a transaction was asked for: with the holding
    /// moved and the record appended where the transaction is applied, and
    /// as it was where it is turned down.
    pub open spec fn transact(
        self,
        symbol: Seq<char>,
        shares: u32,
        transaction_type: TransactionType,
    ) -> PortfolioView {
        if self.verdict(symbol, shares, transaction_type) is Ok {
            self.with_holding(symbol, shares, transaction_type).with_record(
                symbol,
                shares,
                transaction_type,
            )
        } else {
            self
        }
    }

    /// The invariant of a portfolio: a symbol has a holding exactly if it has
    /// a history; a history is never empty and is
    /// [valid](crate::record::valid_history); and the holding of a symbol is
    /// the net of its history.
    pub open spec fn wf(self) -> bool {
        &&& forall|symbol: Seq<char>|
            self.holdings.contains_key(symbol) <==> self.purchase_records.contains_key(symbol)
        &&& forall|symbol: Seq<char>| #[trigger]
            self.purchase_records.contains_key(symbol) ==> {
                &&& self.purchase_records[symbol].len() > 0
                &&& valid_history(self.purchase_records[symbol])
                &&& self.holdings[symbol] == net_shares(self.purchase_records[symbol])
            }
    }
}

} // verus!
