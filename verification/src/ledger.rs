//! The portfolio itself: holdings and histories, kept in step.

use crate::clock::{naive_date_time_from_millis, spec_fixed_date_time, FIXED_EPOCH_TIME_MS};
use crate::error::{PortfolioError, PortfolioResult};
use crate::laws::lemma_transact_keeps_wf;
use crate::model::PortfolioView;
use crate::record::{PurchaseRecord, TransactionType};
use chrono::NaiveDateTime;
use vstd::hash_map::StringHashMap;
use vstd::prelude::*;

verus! {

/// A ledger of share holdings by symbol, with the history of every symbol.
///
/// Symbols are compared as they are written: no case folding, no trimming.
/// Purchases and sales go through [`Portfolio::transact`], which checks a
/// request completely before it changes anything.
pub struct Portfolio {
    holdings: StringHashMap<u32>,
    purchase_records: StringHashMap<Vec<PurchaseRecord>>,
}

impl View for Portfolio {
    type V = PortfolioView;

    closed spec fn view(&self) -> PortfolioView {
        PortfolioView {
            holdings: self.holdings@,
            purchase_records: self.purchase_records@.map_values(
                |records: Vec<PurchaseRecord>| records@,
            ),
        }
    }
}

impl Portfolio {
    /// Whether the portfolio satisfies its invariant: see
    /// [`PortfolioView::wf`]. Every portfolio that this module hands out
    /// does.
    pub open spec fn wf(&self) -> bool {
        self@.wf()
    }

    /// The instant that stamps every record: `FIXED_EPOCH_TIME_MS`
    /// milliseconds after the UNIX epoch, whatever the wall clock says.
    pub fn fixed_date_time() -> (instant: NaiveDateTime)
        ensures
            instant == spec_fixed_date_time(),
    {
        naive_date_time_from_millis(FIXED_EPOCH_TIME_MS).unwrap()
    }

    /// A portfolio in which nothing was traded yet.
    pub fn new() -> (portfolio: Portfolio)
        ensures
            portfolio.wf(),
            portfolio@ == PortfolioView::empty(),
    {
        let portfolio = Portfolio {
            holdings: StringHashMap::new(),
            purchase_records: StringHashMap::new(),
        };
        assert(portfolio@.purchase_records =~= Map::empty());
        portfolio
    }

    /// Whether no symbol has a holding, that is, whether no transaction was
    /// ever applied.
    pub fn is_empty(&self) -> (empty: bool)
        ensures
            empty == self@.is_empty(),
    {
        self.holdings.is_empty()
    }

    /// Turns a request for zero shares down.
    pub fn validate_share_count(shares: u32) -> (result: PortfolioResult<()>)
        ensures
            result == (if shares == 0 {
                Err::<(), PortfolioError>(PortfolioError::ZeroShares)
            } else {
                Ok(())
            }),
    {
        if shares == 0 {
            return Err(PortfolioError::ZeroShares);
        }
        Ok(())
    }

    /// Buys `shares` shares of `symbol`.
    ///
    /// Turned down with `ZeroShares` where `shares` is zero, and with
    /// `InvalidPurchase` where the holding would pass `u32::MAX`; the
    /// portfolio is then as it was. Otherwise the holding grows by `shares`
    /// and a purchase record is appended to the history of `symbol`.
    pub fn purchase(&mut self, symbol: &str, shares: u32) -> (result: PortfolioResult<()>)
        ensures
            old(self).wf() ==> final(self).wf(),
            result == old(self)@.verdict(symbol@, shares, TransactionType::Purchase),
            final(self)@ == old(self)@.transact(symbol@, shares, TransactionType::Purchase),
            result is Err ==> final(self)@ == old(self)@,
    {
        self.transact(symbol, shares, TransactionType::Purchase)
    }

    /// Sells `shares` shares of `symbol`.
    ///
    /// Turned down with `ZeroShares` where `shares` is zero, and with
    /// `InvalidSell` where more is asked for than is held, which is so for
    /// every sale of a symbol that was never traded; the portfolio is then as
    /// it was. Otherwise the holding shrinks by `shares` and a sale record is
    /// appended to the history of `symbol`.
    pub fn sell(&mut self, symbol: &str, shares: u32) -> (result: PortfolioResult<()>)
        ensures
            old(self).wf() ==> final(self).wf(),
            result == old(self)@.verdict(symbol@, shares, TransactionType::Sell),
            final(self)@ == old(self)@.transact(symbol@, shares, TransactionType::Sell),
            result is Err ==> final(self)@ == old(self)@,
    {
        self.transact(symbol, shares, TransactionType::Sell)
    }

    /// The one path by which the portfolio changes: checks the request, and
    /// only if nothing speaks against it moves the holding and appends the
    /// record. A request that is turned down changes nothing.
    pub fn transact(
        &mut self,
        symbol: &str,
        shares: u32,
        transaction_type: TransactionType,
    ) -> (result: PortfolioResult<()>)
        ensures
            old(self).wf() ==> final(self).wf(),
            result == old(self)@.verdict(symbol@, shares, transaction_type),
            final(self)@ == old(self)@.transact(symbol@, shares, transaction_type),
            result is Err ==> final(self)@ == old(self)@,
    {
        Self::validate_share_count(shares)?;
        self.update_holdings(symbol, shares, transaction_type)?;
        proof {
            if old(self).wf() {
                lemma_transact_keeps_wf(old(self)@, symbol@, shares, transaction_type);
            }
        }
        self.update_purchase_records(symbol, shares, transaction_type)
    }

    /// Moves the holding of `symbol` by `shares`, unless it would leave the
    /// range of a share count: then nothing is written, not even a holding
    /// of zero for a symbol that had none.
    fn update_holdings(
        &mut self,
        symbol: &str,
        shares: u32,
        transaction_type: TransactionType,
    ) -> (result: PortfolioResult<()>)
        ensures
            result == old(self)@.holding_verdict(symbol@, shares, transaction_type),
            result is Ok ==> final(self)@ == old(self)@.with_holding(
                symbol@,
                shares,
                transaction_type,
            ),
            result is Err ==> final(self)@ == old(self)@,
    {
        let count = self.share_count(symbol);
        let new_shares = match transaction_type {
            TransactionType::Purchase => count.checked_add(shares).ok_or(
                PortfolioError::InvalidPurchase,
            ),
            TransactionType::Sell => count.checked_sub(shares).ok_or(PortfolioError::InvalidSell),
        }?;
        self.holdings.insert(symbol.to_owned(), new_shares);
        Ok(())
    }

    /// Appends the record of a transaction to the history of `symbol`,
    /// starting the history where there is none yet.
    ///
    /// The map hands out shared references only, so the longer history is
    /// built beside the stored one and then put in its place.
    fn update_purchase_records(
        &mut self,
        symbol: &str,
        shares: u32,
        transaction_type: TransactionType,
    ) -> (result: PortfolioResult<()>)
        ensures
            result == Ok::<(), PortfolioError>(()),
            final(self)@ == old(self)@.with_record(symbol@, shares, transaction_type),
    {
        let mut records: Vec<PurchaseRecord> = Vec::new();
        if let Some(earlier) = self.purchase_records.get(symbol) {
            let mut i: usize = 0;
            while i < earlier.len()
                invariant
                    i <= earlier.len(),
                    records@ == earlier@.take(i as int),
                decreases earlier.len() - i,
            {
                records.push(earlier[i]);
                i += 1;
                assert(records@ =~= earlier@.take(i as int));
            }
            assert(earlier@.take(i as int) =~= earlier@);
        }
        records.push(
            PurchaseRecord { date: Self::fixed_date_time(), shares, transaction_type },
        );
        self.purchase_records.insert(symbol.to_owned(), records);
        assert(final(self)@.purchase_records =~= old(self)@.with_record(
            symbol@,
            shares,
            transaction_type,
        ).purchase_records);
        Ok(())
    }

    /// The shares held of `symbol`: zero where it was never traded.
    pub fn share_count(&self, symbol: &str) -> (count: u32)
        ensures
            count == self@.share_count(symbol@),
    {
        match self.holdings.get(symbol) {
            Some(count) => *count,
            None => 0,
        }
    }

    /// The transactions of `symbol`, oldest first, or `NoSymbolHistory` where
    /// no transaction of it was ever applied. A symbol that was bought and
    /// sold out again still has its history.
    pub fn get_purchase_record(&self, symbol: &str) -> (result: PortfolioResult<&[PurchaseRecord]>)
        ensures
            match result {
                Ok(records) => self@.has_history(symbol@) && records@ == self@.history(symbol@),
                Err(error) => !self@.has_history(symbol@) && error
                    == PortfolioError::NoSymbolHistory,
            },
    {
        if let Some(records) = self.purchase_records.get(symbol) {
            Ok(records.as_slice())
        } else {
            Err(PortfolioError::NoSymbolHistory)
        }
    }
}

} // verus!
