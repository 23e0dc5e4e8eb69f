use portfolio::{Portfolio, PortfolioError, PortfolioResult, PurchaseRecord, TransactionType};

const IBM: &str = "IBM";
const AAPL: &str = "AAPL";
const UNPURCHASED_SYMBOL: &str = "unpurchased_symbol";

fn portfolio() -> Portfolio {
    Portfolio::new()
}

fn portfolio_with_ibm() -> Portfolio {
    let mut p = Portfolio::new();
    p.purchase(IBM, 2).unwrap();
    p
}

#[test]
fn empty_when_created() {
    let portfolio = portfolio();
    assert!(portfolio.is_empty());
}

#[test]
fn not_empty_after_purchase() -> PortfolioResult<()> {
    let portfolio_with_ibm = portfolio_with_ibm();
    assert!(!portfolio_with_ibm.is_empty());
    Ok(())
}

#[test]
fn answers_zero_for_share_count_of_unpurchased_symbol() {
    let portfolio = portfolio();
    assert_eq!(portfolio.share_count(UNPURCHASED_SYMBOL), 0);
}

#[test]
fn answers_nonzero_for_share_count_of_purchased_symbol() {
    let portfolio_with_ibm = portfolio_with_ibm();
    assert!(portfolio_with_ibm.share_count(IBM) > 0);
}

#[test]
fn cannot_purchase_zero_shares() {
    let mut portfolio = portfolio();
    assert!(matches!(
        portfolio.purchase(IBM, 0),
        Err(PortfolioError::ZeroShares)
    ));
}

#[test]
fn answers_share_count_for_appropriate_symbol() -> PortfolioResult<()> {
    let mut portfolio_with_ibm = portfolio_with_ibm();
    let aapl_shares = 3;
    portfolio_with_ibm.purchase(AAPL, aapl_shares)?;
    assert_eq!(portfolio_with_ibm.share_count(AAPL), aapl_shares);
    Ok(())
}

#[test]
fn share_count_reflects_accumulated_purchases_of_same_symbol() -> PortfolioResult<()> {
    let mut portfolio = portfolio();
    portfolio.purchase(IBM, 1)?;
    portfolio.purchase(IBM, 2)?;
    assert_eq!(portfolio.share_count(IBM), 3);
    Ok(())
}

#[test]
fn reduce_share_count_of_symbol_on_sell() -> PortfolioResult<()> {
    let mut portfolio = portfolio();
    portfolio.purchase(IBM, 5)?;
    portfolio.sell(IBM, 3)?;
    assert_eq!(portfolio.share_count(IBM), 2);
    Ok(())
}

#[test]
fn error_when_selling_more_shares_than_purchased() -> PortfolioResult<()> {
    let mut portfolio = portfolio();
    portfolio.purchase(IBM, 1)?;
    assert!(matches!(
        portfolio.sell(IBM, 2),
        Err(PortfolioError::InvalidSell)
    ));
    assert!(matches!(
        portfolio.sell(AAPL, 1),
        Err(PortfolioError::InvalidSell)
    ));
    Ok(())
}

#[test]
fn error_when_selling_zero_shares() {
    let mut portfolio_with_ibm = portfolio_with_ibm();
    assert!(matches!(
        portfolio_with_ibm.sell(IBM, 0),
        Err(PortfolioError::ZeroShares)
    ));
}

#[test]
fn answers_purchase_record_for_existing_share() -> PortfolioResult<()> {
    let mut portfolio = portfolio();
    let num_shares = 3u32;
    portfolio.purchase(IBM, num_shares)?;
    let record = portfolio.get_purchase_record(IBM)?;
    assert_eq!(
        record,
        vec![PurchaseRecord {
            date: Portfolio::fixed_date_time(),
            shares: num_shares,
            transaction_type: TransactionType::Purchase,
        }]
    );
    Ok(())
}

#[test]
fn error_when_accessing_purchase_record_for_symbol_with_no_history() {
    let portfolio = portfolio();
    assert!(matches!(
        portfolio.get_purchase_record(IBM),
        Err(PortfolioError::NoSymbolHistory)
    ));
}

#[test]
fn appends_purchase_record_when_purchasing_existing_share() -> PortfolioResult<()> {
    let mut portfolio_with_ibm = portfolio_with_ibm();
    portfolio_with_ibm.purchase(IBM, 10)?;
    let record = portfolio_with_ibm.get_purchase_record(IBM)?;
    assert_eq!(record.len(), 2);
    Ok(())
}

#[test]
fn separates_purchase_records_by_symbol() -> PortfolioResult<()> {
    let mut portfolio = portfolio();
    let ibm_shares = 1;
    let aapl_shares = 2;
    portfolio.purchase(IBM, ibm_shares)?;
    portfolio.purchase(AAPL, aapl_shares)?;
    let aapl_shares_sell = aapl_shares - 1;
    portfolio.sell(AAPL, aapl_shares_sell)?;
    assert_eq!(
        portfolio.get_purchase_record(IBM)?,
        vec![PurchaseRecord {
            date: Portfolio::fixed_date_time(),
            shares: ibm_shares,
            transaction_type: TransactionType::Purchase
        }]
    );
    assert_eq!(
        portfolio.get_purchase_record(AAPL)?,
        vec![
            PurchaseRecord {
                date: Portfolio::fixed_date_time(),
                shares: aapl_shares,
                transaction_type: TransactionType::Purchase
            },
            PurchaseRecord {
                date: Portfolio::fixed_date_time(),
                shares: aapl_shares_sell,
                transaction_type: TransactionType::Sell
            }
        ]
    );
    Ok(())
}
