use mock_executor::executor::MockExecutor;
use mock_executor::snapshot::Holding;

fn sorted_portfolio(lines: Vec<Holding>) -> Vec<(String, u64)> {
    let mut pairs: Vec<(String, u64)> =
        lines.into_iter().map(|line| (line.symbol, line.quantity)).collect();
    pairs.sort();
    pairs
}

#[test]
fn account_starts_with_its_cash() {
    let account = MockExecutor::new(2_500);
    assert_eq!(account.get_cash(), 2_500);
    assert!(account.get_portfolio().is_empty());
    let empty = MockExecutor::default();
    assert_eq!(empty.get_cash(), 0);
    assert!(empty.get_portfolio().is_empty());
}

#[test]
fn account_buys_when_cash_covers_the_cost() {
    let mut account = MockExecutor::new(2_500);
    assert_eq!(account.buy("AAPL".to_string(), 150, 10), Some(true));
    assert_eq!(account.get_cash(), 1_000);
    assert_eq!(sorted_portfolio(account.get_portfolio()), vec![("AAPL".to_string(), 10)]);
    assert_eq!(account.buy("AAPL".to_string(), 100, 10), Some(true));
    assert_eq!(account.get_cash(), 0);
    assert_eq!(sorted_portfolio(account.get_portfolio()), vec![("AAPL".to_string(), 20)]);
}

#[test]
fn account_skips_a_buy_it_cannot_pay() {
    let mut account = MockExecutor::new(2_500);
    assert_eq!(account.buy("AAPL".to_string(), 150, 10), Some(true));
    assert_eq!(account.buy("MSFT".to_string(), 1_001, 1), Some(false));
    assert_eq!(account.get_cash(), 1_000);
    assert_eq!(sorted_portfolio(account.get_portfolio()), vec![("AAPL".to_string(), 10)]);
}

#[test]
fn account_sells_what_it_holds() {
    let mut account = MockExecutor::new(2_500);
    assert_eq!(account.buy("AAPL".to_string(), 150, 10), Some(true));
    assert_eq!(account.sell("AAPL".to_string(), 200, 4), Some(true));
    assert_eq!(account.get_cash(), 1_800);
    assert_eq!(sorted_portfolio(account.get_portfolio()), vec![("AAPL".to_string(), 6)]);
}

#[test]
fn account_skips_a_sell_of_more_than_it_holds() {
    let mut account = MockExecutor::new(2_500);
    assert_eq!(account.buy("AAPL".to_string(), 150, 10), Some(true));
    assert_eq!(account.sell("AAPL".to_string(), 200, 11), Some(false));
    assert_eq!(account.sell("MSFT".to_string(), 200, 1), Some(false));
    assert_eq!(account.get_cash(), 1_000);
    assert_eq!(sorted_portfolio(account.get_portfolio()), vec![("AAPL".to_string(), 10)]);
}

#[test]
fn account_buys_and_sells_back_to_where_it_was() {
    let mut account = MockExecutor::new(777);
    assert_eq!(account.buy("KEEP".to_string(), 7, 3), Some(true));
    let cash = account.get_cash();
    assert_eq!(account.buy("TSLA".to_string(), 9, 11), Some(true));
    assert_eq!(account.sell("TSLA".to_string(), 9, 11), Some(true));
    assert_eq!(account.get_cash(), cash);
    assert_eq!(sorted_portfolio(account.get_portfolio()), vec![("KEEP".to_string(), 3)]);
}

#[test]
fn account_makes_no_trade_that_it_cannot_count() {
    let mut account = MockExecutor::new(u64::MAX);
    assert_eq!(account.buy("FREE".to_string(), 0, u64::MAX), Some(true));
    assert_eq!(account.buy("FREE".to_string(), 0, 1), None);
    assert_eq!(account.sell("FREE".to_string(), 1, 1), None);
    assert_eq!(account.sell("FREE".to_string(), 0, 1), Some(true));
    assert_eq!(account.sell("NONE".to_string(), 1, 1), Some(false));
    assert_eq!(account.get_cash(), u64::MAX);
    assert_eq!(sorted_portfolio(account.get_portfolio()), vec![("FREE".to_string(), u64::MAX - 1)]);
}
