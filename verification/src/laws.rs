//! What holds of every portfolio, proved over the model.
//!
//! The operations of [`Portfolio`](crate::ledger::Portfolio) are specified by
//! [`PortfolioView::verdict`] and [`PortfolioView::transact`]; each lemma
//! here is therefore a statement about what a sequence of calls returns and
//! leaves behind.

use crate::error::PortfolioError;
use crate::model::PortfolioView;
use crate::record::{
    lemma_net_shares_push, lemma_valid_history_push, net_shares, valid_history, PurchaseRecord,
    TransactionType,
};
use vstd::prelude::*;

verus! {

/// A portfolio in which nothing was traded satisfies the invariant, is
/// empty, holds no share of any symbol and has no history of any symbol.
pub proof fn lemma_empty_portfolio(symbol: Seq<char>)
    ensures
        PortfolioView::empty().wf(),
        PortfolioView::empty().is_empty(),
        PortfolioView::empty().share_count(symbol) == 0,
        !PortfolioView::empty().has_history(symbol),
{
}

/// In a portfolio that satisfies the invariant, the holding of every symbol
/// is the net of its history, purchases minus sales; the history is valid,
/// so no record in it moves zero shares; and a symbol has a history exactly
/// if it has a holding, in which case the history is not empty.
pub proof fn lemma_holding_is_net_of_history(portfolio: PortfolioView, symbol: Seq<char>)
    requires
        portfolio.wf(),
    ensures
        portfolio.share_count(symbol) == net_shares(portfolio.history(symbol)),
        valid_history(portfolio.history(symbol)),
        portfolio.has_history(symbol) <==> portfolio.holdings.contains_key(symbol),
        portfolio.has_history(symbol) <==> portfolio.history(symbol).len() > 0,
{
    if !portfolio.has_history(symbol) {
        assert(portfolio.history(symbol).take(0) =~= portfolio.history(symbol));
    }
}

/// The invariant survives every request, applied or turned down.
pub proof fn lemma_transact_keeps_wf(
    portfolio: PortfolioView,
    symbol: Seq<char>,
    shares: u32,
    transaction_type: TransactionType,
)
    requires
        portfolio.wf(),
    ensures
        portfolio.transact(symbol, shares, transaction_type).wf(),
{
    if portfolio.verdict(symbol, shares, transaction_type) is Ok {
        let earlier = portfolio.history(symbol);
        let record = PurchaseRecord::stamped(shares, transaction_type);
        let after = portfolio.transact(symbol, shares, transaction_type);
        lemma_holding_is_net_of_history(portfolio, symbol);
        lemma_net_shares_push(earlier, record);
        lemma_valid_history_push(earlier, record);
        assert(after.purchase_records[symbol] == earlier.push(record));
    }
}

/// A request that is applied moves the holding of its symbol by exactly the
/// shares asked for, appends exactly one record to the history of that
/// symbol, the record of the request, and leaves a portfolio that is not
/// empty.
pub proof fn lemma_applied_request(
    portfolio: PortfolioView,
    symbol: Seq<char>,
    shares: u32,
    transaction_type: TransactionType,
)
    requires
        portfolio.verdict(symbol, shares, transaction_type) is Ok,
    ensures
        ({
            let after = portfolio.transact(symbol, shares, transaction_type);
            &&& after.share_count(symbol) == portfolio.count_after(
                symbol,
                shares,
                transaction_type,
            )
            &&& after.has_history(symbol)
            &&& after.history(symbol) == portfolio.history(symbol).push(
                PurchaseRecord::stamped(shares, transaction_type),
            )
            &&& !after.is_empty()
        }),
{
    let after = portfolio.transact(symbol, shares, transaction_type);
    assert(after.holdings.dom().contains(symbol));
}

/// A request that is turned down, for whatever reason, leaves the portfolio
/// exactly as it was: holdings and histories alike.
pub proof fn lemma_rejected_request_changes_nothing(
    portfolio: PortfolioView,
    symbol: Seq<char>,
    shares: u32,
    transaction_type: TransactionType,
)
    requires
        portfolio.verdict(symbol, shares, transaction_type) is Err,
    ensures
        portfolio.transact(symbol, shares, transaction_type) == portfolio,
        portfolio.transact(symbol, shares, transaction_type).share_count(symbol)
            == portfolio.share_count(symbol),
        portfolio.transact(symbol, shares, transaction_type).has_history(symbol)
            == portfolio.has_history(symbol),
        portfolio.transact(symbol, shares, transaction_type).history(symbol) == portfolio.history(
            symbol,
        ),
{
}

/// A request for zero shares, purchase or sale, is turned down with
/// `ZeroShares` and changes nothing.
pub proof fn lemma_zero_shares_rejected(
    portfolio: PortfolioView,
    symbol: Seq<char>,
    transaction_type: TransactionType,
)
    ensures
        portfolio.verdict(symbol, 0, transaction_type) == Err::<(), PortfolioError>(
            PortfolioError::ZeroShares,
        ),
        portfolio.transact(symbol, 0, transaction_type) == portfolio,
{
}

/// A sale of more shares than are held is turned down with `InvalidSell` and
/// changes nothing. That covers every sale of at least one share of a symbol
/// that was never traded: it is held at zero, and no history is started for
/// it.
pub proof fn lemma_oversell_rejected(portfolio: PortfolioView, symbol: Seq<char>, shares: u32)
    requires
        shares > portfolio.share_count(symbol),
    ensures
        portfolio.verdict(symbol, shares, TransactionType::Sell) == Err::<(), PortfolioError>(
            PortfolioError::InvalidSell,
        ),
        portfolio.transact(symbol, shares, TransactionType::Sell) == portfolio,
        !portfolio.has_history(symbol) ==> !portfolio.transact(
            symbol,
            shares,
            TransactionType::Sell,
        ).has_history(symbol),
{
}

/// A purchase that would take the holding past `u32::MAX` is turned down
/// with `InvalidPurchase` and changes nothing.
pub proof fn lemma_overflowing_purchase_rejected(
    portfolio: PortfolioView,
    symbol: Seq<char>,
    shares: u32,
)
    requires
        portfolio.share_count(symbol) + shares > u32::MAX,
    ensures
        portfolio.verdict(symbol, shares, TransactionType::Purchase) == Err::<
            (),
            PortfolioError,
        >(PortfolioError::InvalidPurchase),
        portfolio.transact(symbol, shares, TransactionType::Purchase) == portfolio,
{
}

/// Two purchases of the same symbol, of `first` and then `second` shares,
/// are both applied where the sum stays within `u32::MAX`, and leave a
/// holding that is larger by `first + second`: in a portfolio that held none
/// of the symbol, a holding of `first + second`.
pub proof fn lemma_purchases_accumulate(
    portfolio: PortfolioView,
    symbol: Seq<char>,
    first: u32,
    second: u32,
)
    requires
        first > 0,
        second > 0,
        portfolio.share_count(symbol) + first + second <= u32::MAX,
    ensures
        ({
            let between = portfolio.transact(symbol, first, TransactionType::Purchase);
            let after = between.transact(symbol, second, TransactionType::Purchase);
            &&& portfolio.verdict(symbol, first, TransactionType::Purchase) is Ok
            &&& between.verdict(symbol, second, TransactionType::Purchase) is Ok
            &&& after.share_count(symbol) == portfolio.share_count(symbol) + first + second
            &&& portfolio.share_count(symbol) == 0 ==> after.share_count(symbol) == first + second
        }),
{
}

/// Two purchases of the same symbol append two records to its history, in
/// the order of the calls: a history that had `n` records has `n + 2`, and
/// one that did not exist has exactly these two.
pub proof fn lemma_purchases_append_in_order(
    portfolio: PortfolioView,
    symbol: Seq<char>,
    first: u32,
    second: u32,
)
    requires
        first > 0,
        second > 0,
        portfolio.share_count(symbol) + first + second <= u32::MAX,
    ensures
        ({
            let after = portfolio.transact(symbol, first, TransactionType::Purchase).transact(
                symbol,
                second,
                TransactionType::Purchase,
            );
            &&& after.history(symbol) == portfolio.history(symbol).push(
                PurchaseRecord::stamped(first, TransactionType::Purchase),
            ).push(PurchaseRecord::stamped(second, TransactionType::Purchase))
            &&& after.history(symbol).len() == portfolio.history(symbol).len() + 2
            &&& !portfolio.has_history(symbol) ==> after.history(symbol) == seq![
                PurchaseRecord::stamped(first, TransactionType::Purchase),
                PurchaseRecord::stamped(second, TransactionType::Purchase),
            ]
        }),
{
    let between = portfolio.transact(symbol, first, TransactionType::Purchase);
    lemma_applied_request(portfolio, symbol, first, TransactionType::Purchase);
    lemma_applied_request(between, symbol, second, TransactionType::Purchase);
    if !portfolio.has_history(symbol) {
        assert(portfolio.history(symbol).push(
            PurchaseRecord::stamped(first, TransactionType::Purchase),
        ).push(PurchaseRecord::stamped(second, TransactionType::Purchase)) =~= seq![
            PurchaseRecord::stamped(first, TransactionType::Purchase),
            PurchaseRecord::stamped(second, TransactionType::Purchase),
        ]);
    }
}

/// Histories only grow, and only at the end: whatever is asked for, the
/// history that a symbol had is the beginning of the history that it has
/// afterwards, and a symbol that had a history keeps one.
pub proof fn lemma_history_is_append_only(
    portfolio: PortfolioView,
    symbol: Seq<char>,
    shares: u32,
    transaction_type: TransactionType,
    any: Seq<char>,
)
    ensures
        ({
            let after = portfolio.transact(symbol, shares, transaction_type);
            &&& portfolio.history(any).is_prefix_of(after.history(any))
            &&& portfolio.has_history(any) ==> after.has_history(any)
        }),
{
}

/// A request about one symbol, applied or turned down, leaves every other
/// symbol as it was: its holding, whether it has a history, and the history.
pub proof fn lemma_other_symbols_untouched(
    portfolio: PortfolioView,
    symbol: Seq<char>,
    shares: u32,
    transaction_type: TransactionType,
    other: Seq<char>,
)
    requires
        other != symbol,
    ensures
        ({
            let after = portfolio.transact(symbol, shares, transaction_type);
            &&& after.share_count(other) == portfolio.share_count(other)
            &&& after.has_history(other) == portfolio.has_history(other)
            &&& after.history(other) == portfolio.history(other)
        }),
{
}

} // verus!
