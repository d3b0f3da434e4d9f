use mock_executor::model::Side;
use mock_executor::order::{decode_order, parse_side};
use mock_executor::outcome::{QuoteError, Status, TradeOutcome};
use mock_executor::snapshot::Snapshot;

#[test]
fn side_is_read_in_any_case() {
    assert_eq!(parse_side("buy"), Some(Side::Buy));
    assert_eq!(parse_side("BUY"), Some(Side::Buy));
    assert_eq!(parse_side("Buy"), Some(Side::Buy));
    assert_eq!(parse_side("bUy"), Some(Side::Buy));
    assert_eq!(parse_side("sell"), Some(Side::Sell));
    assert_eq!(parse_side("SELL"), Some(Side::Sell));
    assert_eq!(parse_side("SeLl"), Some(Side::Sell));
}

#[test]
fn other_words_name_no_side() {
    let words = [
        "", "b", "bu", "buyy", "buy ", " buy", "sel", "sells", "hold", "short", "b\u{fc}y",
        "s\u{e9}ll", "sale", "bye",
    ];
    for word in words {
        assert_eq!(parse_side(word), None, "{word:?}");
    }
}

#[test]
fn request_is_read_into_an_order() {
    let order = decode_order("AAPL".to_string(), "Buy", 100).unwrap();
    assert_eq!(order.symbol, "AAPL");
    assert_eq!(order.side, Side::Buy);
    assert_eq!(order.quantity, 100);
    let order = decode_order("msft".to_string(), "SELL", 1).unwrap();
    assert_eq!(order.symbol, "msft");
    assert_eq!(order.side, Side::Sell);
    assert_eq!(order.quantity, 1);
}

#[test]
fn unknown_side_is_an_invalid_argument() {
    let outcome = decode_order("AAPL".to_string(), "hold", 100).unwrap_err();
    assert_eq!(outcome.status, Status::InvalidArgument);
    assert_eq!(outcome.message, "Trade must be 'buy' or 'sell'");
    assert!(outcome.snapshot.is_none());
}

#[test]
fn amount_of_zero_is_an_invalid_argument() {
    let outcome = decode_order("AAPL".to_string(), "buy", 0).unwrap_err();
    assert_eq!(outcome.status, Status::InvalidArgument);
    assert_eq!(outcome.message, "Amount must be positive");
    assert!(outcome.snapshot.is_none());
}

#[test]
fn unknown_side_is_reported_before_a_zero_amount() {
    let outcome = decode_order("AAPL".to_string(), "", 0).unwrap_err();
    assert_eq!(outcome.status, Status::InvalidArgument);
    assert_eq!(outcome.message, "Trade must be 'buy' or 'sell'");
}

#[test]
fn outcomes_carry_their_kind_and_sentence() {
    let snapshot = Snapshot { cash: 7, holdings: Vec::new() };
    let outcome = TradeOutcome::executed(snapshot.clone());
    assert_eq!(outcome.status, Status::Executed);
    assert_eq!(outcome.message, "Trade executed");
    assert_eq!(outcome.snapshot.unwrap().cash, 7);
    let outcome = TradeOutcome::insufficient_funds(snapshot.clone());
    assert_eq!(outcome.status, Status::InsufficientFunds);
    assert_eq!(outcome.message, "Insufficient funds");
    assert_eq!(outcome.snapshot.unwrap().cash, 7);
    let outcome = TradeOutcome::insufficient_holdings(snapshot);
    assert_eq!(outcome.status, Status::InsufficientHoldings);
    assert_eq!(outcome.message, "Not enough holdings");
    assert_eq!(outcome.snapshot.unwrap().cash, 7);
    let outcome = TradeOutcome::invalid_side();
    assert_eq!(outcome.status, Status::InvalidArgument);
    let outcome = TradeOutcome::invalid_amount();
    assert_eq!(outcome.status, Status::InvalidArgument);
}

#[test]
fn quote_failures_say_what_went_wrong() {
    let outcome = TradeOutcome::quote_unavailable(&QuoteError::Connection("timed out".to_string()));
    assert_eq!(outcome.status, Status::QuoteUnavailable);
    assert_eq!(outcome.message, "Failed to connect to quote service: timed out");
    assert!(outcome.snapshot.is_none());
    let outcome = TradeOutcome::quote_unavailable(&QuoteError::Service(String::new()));
    assert_eq!(outcome.status, Status::QuoteUnavailable);
    assert_eq!(outcome.message, "Quote error: ");
    assert!(outcome.snapshot.is_none());
}

#[test]
fn each_kind_travels_under_its_own_code() {
    assert_eq!(Status::Executed.rpc_code(), 0);
    assert_eq!(Status::InvalidArgument.rpc_code(), 3);
    assert_eq!(Status::InsufficientFunds.rpc_code(), 8);
    assert_eq!(Status::InsufficientHoldings.rpc_code(), 9);
    assert_eq!(Status::QuoteUnavailable.rpc_code(), 14);
}
