//! What holds of every ledger, stated over the model and proved.

use crate::engine::{settled, verdict};
use crate::ledger::{fits, sell_of};
use crate::model::{total_cost, LedgerState, Side, Trade};
use crate::order::TradeOrder;
use crate::outcome::{QuoteError, Status};
use vstd::prelude::*;
use vstd::seq_lib::*;

verus! {

/// Every trade in the run is a buy.
pub open spec fn all_buys(trades: Seq<Trade>) -> bool {
    forall|i: int| 0 <= i < trades.len() ==> (#[trigger] trades[i]).side == Side::Buy
}

/// No two trades in the run name the same symbol.
pub open spec fn distinct_symbols(trades: Seq<Trade>) -> bool {
    forall|i: int, j: int|
        0 <= i < j < trades.len() ==> (#[trigger] trades[i]).symbol != (#[trigger] trades[j]).symbol
}

/// One trade, taken or refused, leaves a valid ledger valid: cash does not go
/// below zero and no position does.
pub proof fn law_trade_keeps_validity(state: LedgerState, trade: Trade)
    requires
        state.valid(),
    ensures
        state.apply(trade).valid(),
        state.apply(trade).cash >= 0,
        forall|symbol: Seq<char>| state.apply(trade).position(symbol) >= 0,
{
}

/// Whatever trades are run against a valid ledger, in whatever order, cash
/// never goes below zero and no position does.
pub proof fn law_run_keeps_validity(state: LedgerState, trades: Seq<Trade>)
    requires
        state.valid(),
    ensures
        state.run(trades).valid(),
        state.run(trades).cash >= 0,
        forall|symbol: Seq<char>| state.run(trades).position(symbol) >= 0,
    decreases trades.len(),
{
    if trades.len() > 0 {
        law_run_keeps_validity(state, trades.drop_last());
        law_trade_keeps_validity(state.run(trades.drop_last()), trades.last());
    }
}

/// A trade that the ledger refuses changes nothing: neither cash nor any
/// position.
pub proof fn law_refusal_changes_nothing(state: LedgerState, trade: Trade)
    requires
        !state.accepts(trade),
    ensures
        state.apply(trade) == state,
{
}

/// Buying and then selling the same quantity of the same symbol at the same
/// price brings a valid ledger back to where it was: the sell is taken, cash
/// is what it was before the buy, and so is every position.
pub proof fn law_round_trip(state: LedgerState, symbol: Seq<char>, quantity: nat, price: nat)
    requires
        state.valid(),
        state.affords(quantity, price),
    ensures
        state.buy(symbol, quantity, price).holds(symbol, quantity),
        state.buy(symbol, quantity, price).sell(symbol, quantity, price) == state,
{
    let back = state.buy(symbol, quantity, price).sell(symbol, quantity, price);
    assert(back.holdings =~= state.holdings);
}

/// The selling half of a round trip always fits the ledger's counters: what
/// a buy took out of a 64-bit cash balance goes back into it.
pub proof fn law_round_trip_fits(state: LedgerState, symbol: Seq<char>, quantity: u64, price: u64)
    requires
        state.valid(),
        state.cash <= u64::MAX,
        state.affords(quantity as nat, price as nat),
    ensures
        fits(state.buy(symbol, quantity as nat, price as nat), sell_of(symbol, quantity, price)),
{
}

/// A quote that fails ends a well-formed order as quote-unavailable and
/// leaves the ledger as it was.
pub proof fn law_failed_quote_changes_nothing(state: LedgerState, order: TradeOrder, error: QuoteError)
    requires
        order.quantity > 0,
    ensures
        verdict(state, order, Err(error)) == Some(Status::QuoteUnavailable),
        settled(state, order, Err(error)) == state,
{
}

/// No two ways in which an order can end travel under the same code: a caller
/// can tell them apart without reading the message.
pub proof fn law_kinds_are_told_apart(one: Status, other: Status)
    requires
        one != other,
    ensures
        one.code() != other.code(),
{
}

/// A run of buys that cash covers in total: every buy is taken when its turn
/// comes, and cash ends lower by exactly the sum of the costs.
pub proof fn law_covered_buys_all_settle(state: LedgerState, trades: Seq<Trade>)
    requires
        all_buys(trades),
        total_cost(trades) <= state.cash,
    ensures
        forall|k: int|
            0 <= k < trades.len() ==> #[trigger] state.run(trades.take(k)).accepts(trades[k]),
        state.run(trades).cash == state.cash - total_cost(trades),
    decreases trades.len(),
{
    if trades.len() > 0 {
        let head = trades.drop_last();
        assert(all_buys(head)) by {
            assert forall|i: int| 0 <= i < head.len() implies (#[trigger] head[i]).side
                == Side::Buy by {
                assert(head[i] == trades[i]);
            }
        }
        law_covered_buys_all_settle(state, head);
        assert forall|k: int| 0 <= k < trades.len() implies #[trigger] state.run(
            trades.take(k),
        ).accepts(trades[k]) by {
            if k < head.len() {
                assert(trades.take(k) =~= head.take(k));
                assert(trades[k] == head[k]);
            } else {
                assert(trades.take(k) =~= head);
            }
        }
    }
}

/// A run of buys for symbols that all differ, covered by cash in total: at the
/// end each symbol's position is higher by exactly the quantity bought of it,
/// and every other position is what it was.
pub proof fn law_covered_buys_raise_positions(state: LedgerState, trades: Seq<Trade>)
    requires
        state.valid(),
        all_buys(trades),
        distinct_symbols(trades),
        total_cost(trades) <= state.cash,
    ensures
        forall|k: int|
            0 <= k < trades.len() ==> state.run(trades).position((#[trigger] trades[k]).symbol)
                == state.position(trades[k].symbol) + trades[k].quantity,
        forall|symbol: Seq<char>|
            (forall|k: int| 0 <= k < trades.len() ==> (#[trigger] trades[k]).symbol != symbol)
                ==> state.run(trades).position(symbol) == state.position(symbol),
    decreases trades.len(),
{
    if trades.len() > 0 {
        let head = trades.drop_last();
        let last = trades.last();
        assert forall|i: int| 0 <= i < head.len() implies (#[trigger] head[i]) == trades[i] by {}
        assert(all_buys(head));
        assert(distinct_symbols(head));
        law_covered_buys_raise_positions(state, head);
        law_covered_buys_all_settle(state, trades);
        assert(trades.take(trades.len() - 1) =~= head);
        assert(state.run(head).accepts(last));
        assert(state.run(head).position(last.symbol) == state.position(last.symbol));
        assert forall|k: int| 0 <= k < trades.len() implies state.run(trades).position(
            (#[trigger] trades[k]).symbol,
        ) == state.position(trades[k].symbol) + trades[k].quantity by {
            if k < head.len() {
                assert(head[k] == trades[k]);
            }
        }
    }
}

/// A buy made without asking whether cash covers it. On a valid ledger that
/// can pay, it is the buy itself; unlike the buy, two of them can always be
/// swapped.
spec fn forced(state: LedgerState, trade: Trade) -> LedgerState {
    LedgerState {
        cash: state.cash - trade.price * trade.quantity,
        holdings: if trade.quantity > 0 {
            state.holdings.insert(trade.symbol, state.position(trade.symbol) + trade.quantity)
        } else {
            state.holdings
        },
    }
}

/// [`forced`], as the step of a fold over a run of trades.
spec fn forcing() -> spec_fn(LedgerState, Trade) -> LedgerState {
    |state: LedgerState, trade: Trade| forced(state, trade)
}

/// Adding the cost of one more trade, as the step of a fold.
spec fn adding() -> spec_fn(int, Trade) -> int {
    |sum: int, trade: Trade| sum + trade.price * trade.quantity
}

/// Forced buys can be swapped, and so can the costs in a sum.
proof fn lemma_forcing_commutes()
    ensures
        commutative_foldl(forcing()),
        commutative_foldl(adding()),
{
    assert forall|x: Trade, y: Trade, v: LedgerState| #[trigger]
        forcing()(forcing()(v, x), y) == forcing()(forcing()(v, y), x) by {
        assert(forced(forced(v, x), y) =~= forced(forced(v, y), x));
    }
}

/// The total cost is the costs added up one by one.
proof fn lemma_total_cost_is_a_fold(trades: Seq<Trade>)
    ensures
        total_cost(trades) == trades.fold_left(0int, adding()),
    decreases trades.len(),
{
    if trades.len() > 0 {
        lemma_total_cost_is_a_fold(trades.drop_last());
    }
}

/// Where cash covers a run of buys, every one of them is taken, so the run
/// is the same as forcing them one by one.
proof fn lemma_covered_run_is_a_fold(state: LedgerState, trades: Seq<Trade>)
    requires
        state.valid(),
        all_buys(trades),
        total_cost(trades) <= state.cash,
    ensures
        state.run(trades) == trades.fold_left(state, forcing()),
    decreases trades.len(),
{
    if trades.len() > 0 {
        let head = trades.drop_last();
        let last = trades.last();
        assert forall|i: int| 0 <= i < head.len() implies (#[trigger] head[i]) == trades[i] by {}
        assert(all_buys(head));
        lemma_covered_run_is_a_fold(state, head);
        law_covered_buys_all_settle(state, trades);
        law_run_keeps_validity(state, head);
        assert(trades.take(trades.len() - 1) =~= head);
        assert(state.run(head).accepts(last));
        assert(state.run(head).apply(last) =~= forced(state.run(head), last));
    }
}

/// The same covered buys, made in two different orders, end in the same
/// state: whichever of them comes first, none is lost and none counts twice.
pub proof fn law_covered_buys_commute(state: LedgerState, first: Seq<Trade>, second: Seq<Trade>)
    requires
        state.valid(),
        all_buys(first),
        total_cost(first) <= state.cash,
        first.to_multiset() == second.to_multiset(),
    ensures
        all_buys(second),
        total_cost(second) == total_cost(first),
        state.run(second) == state.run(first),
{
    broadcast use group_to_multiset_ensures;

    assert forall|i: int| 0 <= i < second.len() implies (#[trigger] second[i]).side == Side::Buy by {
        assert(second.contains(second[i]));
        assert(first.to_multiset().count(second[i]) > 0);
        assert(first.contains(second[i]));
    }
    lemma_forcing_commutes();
    lemma_total_cost_is_a_fold(first);
    lemma_total_cost_is_a_fold(second);
    lemma_fold_left_permutation(first, second, adding(), 0int);
    lemma_covered_run_is_a_fold(state, first);
    lemma_covered_run_is_a_fold(state, second);
    lemma_fold_left_permutation(first, second, forcing(), state);
}

} // verus!
