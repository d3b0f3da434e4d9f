use mock_executor::engine::TradingEngine;
use mock_executor::ledger::Ledger;
use mock_executor::model::Side;
use mock_executor::order::TradeOrder;
use mock_executor::outcome::Status;
use std::sync::Arc;
use tokio::runtime::Builder;
use tokio::sync::Mutex;

#[test]
fn concurrent_buys_of_distinct_symbols_lose_no_update() {
    let runtime = Builder::new_multi_thread().worker_threads(8).build().unwrap();
    let ledger = Arc::new(Mutex::new(Ledger::new(10_000_000)));
    let total: u64 = runtime.block_on(async {
        let mut tasks = Vec::new();
        for i in 0..200u64 {
            let ledger = Arc::clone(&ledger);
            tasks.push(tokio::spawn(async move {
                let symbol = format!("SYM{i}");
                let quantity = i % 7 + 1;
                let price = i % 13 + 1;
                tokio::task::yield_now().await;
                let mut guard = ledger.lock().await;
                let snapshot = guard.apply_buy(&symbol, quantity, price).expect("covered by cash");
                assert_eq!(snapshot.cash, guard.cash());
                assert_eq!(snapshot.quantity_of(&symbol), quantity);
                price * quantity
            }));
        }
        let mut total = 0;
        for task in tasks {
            total += task.await.unwrap();
        }
        total
    });
    let ledger = runtime.block_on(async { Arc::clone(&ledger).lock_owned().await });
    assert_eq!(ledger.cash(), 10_000_000 - total);
    for i in 0..200u64 {
        assert_eq!(ledger.position(&format!("SYM{i}")), i % 7 + 1);
    }
    assert_eq!(ledger.snapshot().holdings.len(), 200);
}

#[test]
fn concurrent_trades_on_one_symbol_add_up() {
    let runtime = Builder::new_multi_thread().worker_threads(8).build().unwrap();
    let engine = Arc::new(Mutex::new(TradingEngine::new(1_000_000)));
    runtime.block_on(async {
        let mut tasks = Vec::new();
        for i in 0..150u64 {
            let engine = Arc::clone(&engine);
            tasks.push(tokio::spawn(async move {
                let order = TradeOrder { symbol: "ONE".to_string(), side: Side::Buy, quantity: 2 };
                tokio::task::yield_now().await;
                let outcome = engine.lock().await.execute(&order, Ok(i % 5 + 1)).unwrap();
                assert_eq!(outcome.status, Status::Executed);
                2 * (i % 5 + 1)
            }));
        }
        let mut spent = 0;
        for task in tasks {
            spent += task.await.unwrap();
        }
        let engine = engine.lock().await;
        assert_eq!(engine.cash(), 1_000_000 - spent);
        let lines = engine.get_portfolio();
        assert_eq!(lines.len(), 1);
        assert_eq!(lines[0].symbol, "ONE");
        assert_eq!(lines[0].quantity, 300);
    });
}
