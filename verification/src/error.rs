//! The ways in which a request to the ledger can be turned down.

use vstd::prelude::*;

verus! {

/// Why a request was turned down. None of these is fatal: the portfolio is
/// left as it was and the caller decides what to do next.
#[derive(Clone, Copy, Debug, PartialEq, Eq)]
pub enum PortfolioError {
    /// A purchase or a sale of zero shares was asked for.
    ZeroShares,
    /// A sale asked for more shares than are held.
    InvalidSell,
    /// The history of a symbol was asked for that no transaction ever touched.
    NoSymbolHistory,
    /// A purchase would take the holding past what a share count can express.
    InvalidPurchase,
}

pub type PortfolioResult<T> = Result<T, PortfolioError>;

impl PortfolioError {
    /// The text that [`PortfolioError::message`] returns.
    pub open spec fn spec_message(self) -> Seq<char> {
        match self {
            PortfolioError::ZeroShares => "Cannot perform transaction with zero shares"@,
            PortfolioError::InvalidSell => "Cannot sell more shares than owned"@,
            PortfolioError::NoSymbolHistory => "No history for symbol"@,
            PortfolioError::InvalidPurchase => "Too many shares puchased"@,
        }
    }

    /// A sentence for people that says what went wrong.
    pub fn message(&self) -> (text: String)
        ensures
            text@ == self.spec_message(),
    {
        match self {
            PortfolioError::ZeroShares => "Cannot perform transaction with zero shares".to_owned(),
            PortfolioError::InvalidSell => "Cannot sell more shares than owned".to_owned(),
            PortfolioError::NoSymbolHistory => "No history for symbol".to_owned(),
            PortfolioError::InvalidPurchase => "Too many shares puchased".to_owned(),
        }
    }
}

} // verus!
