//! A small in-memory ledger of share holdings.
//!
//! A [`Portfolio`] records, for each ticker symbol, how many shares are held
//! and every purchase and sale that led there. Each operation either applies
//! completely or leaves the portfolio untouched, and the holdings always equal
//! the net of the recorded transactions.

pub mod clock;
pub mod error;
pub mod laws;
pub mod ledger;
pub mod model;
pub mod record;

pub use clock::FIXED_EPOCH_TIME_MS;
pub use error::{PortfolioError, PortfolioResult};
pub use ledger::Portfolio;
pub use model::PortfolioView;
pub use record::{PurchaseRecord, TransactionType};
