//! The engine: one order, one quote, one decision.
//!
//! The engine never asks for a price itself. Its caller reads the request
//! with [`decode_order`](crate::order::decode_order), asks the quotation
//! service while holding nothing, and only then takes the engine and hands
//! both to [`TradingEngine::execute`]. The ledger is thus never held across
//! the wait for a quote, and a quote that fails cannot touch it.
//!
//! An order settles at the price that was quoted for it, also where other
//! orders were settled while it waited: the engine does not ask again, and
//! the ledger checks the order against cash and holdings as they stand when
//! its turn comes.

use crate::ledger::{fits, Ledger};
use crate::model::{LedgerState, Side};
use crate::order::TradeOrder;
use crate::outcome::{QuoteError, Status, TradeOutcome};
use crate::snapshot::{listed, tidy, Holding};
use vstd::prelude::*;

verus! {

/// How `order` ends against `quote` in `state`. An order for nothing is
/// invalid whatever the quote; a failed quote ends the order before the ledger
/// is asked; otherwise the ledger decides. `None` is for a trade that the
/// ledger would take but whose result its 64-bit counters cannot hold.
pub open spec fn verdict(
    state: LedgerState,
    order: TradeOrder,
    quote: Result<u64, QuoteError>,
) -> Option<Status> {
    if order.quantity == 0 {
        Some(Status::InvalidArgument)
    } else {
        match quote {
            Err(_) => Some(Status::QuoteUnavailable),
            Ok(price) => if !state.accepts(order.at(price)) {
                match order.side {
                    Side::Buy => Some(Status::InsufficientFunds),
                    Side::Sell => Some(Status::InsufficientHoldings),
                }
            } else if fits(state, order.at(price)) {
                Some(Status::Executed)
            } else {
                None
            },
        }
    }
}

/// The ledger after `order` has ended: the trade applied where the order was
/// executed, and `state` itself in every other case.
pub open spec fn settled(
    state: LedgerState,
    order: TradeOrder,
    quote: Result<u64, QuoteError>,
) -> LedgerState {
    if verdict(state, order, quote) == Some(Status::Executed) {
        state.apply(order.at(quote->Ok_0))
    } else {
        state
    }
}

/// The sentence that goes with each way an order can end.
pub open spec fn message_for(status: Status, quote: Result<u64, QuoteError>) -> Seq<char> {
    match status {
        Status::Executed => "Trade executed"@,
        Status::InvalidArgument => "Amount must be positive"@,
        Status::QuoteUnavailable => quote->Err_0.text(),
        Status::InsufficientFunds => "Insufficient funds"@,
        Status::InsufficientHoldings => "Not enough holdings"@,
    }
}

/// The trade-execution engine: the ledger and the rules for settling an order
/// against it.
pub struct TradingEngine {
    ledger: Ledger,
}

impl View for TradingEngine {
    type V = LedgerState;

    closed spec fn view(&self) -> LedgerState {
        self.ledger@
    }
}

impl Default for TradingEngine {
    /// An engine with no cash and no holdings.
    fn default() -> (engine: TradingEngine)
        ensures
            engine@ == LedgerState::opening(0),
    {
        TradingEngine::new(0)
    }
}

impl TradingEngine {
    /// An engine whose ledger starts with `initial_cash` and no holdings.
    pub fn new(initial_cash: u64) -> (engine: TradingEngine)
        ensures
            engine@ == LedgerState::opening(initial_cash as int),
    {
        TradingEngine { ledger: Ledger::new(initial_cash) }
    }

    /// Every engine's ledger, whatever orders it has settled, is in a valid
    /// state, with cash and every position a number of 64 bits.
    pub proof fn always_valid(&self)
        ensures
            self@.valid(),
            self@.cash <= u64::MAX,
            forall|symbol: Seq<char>| 0 <= #[trigger] self@.position(symbol) <= u64::MAX,
    {
        self.ledger.always_valid();
    }

    /// The cash at hand.
    pub fn cash(&self) -> (cash: u64)
        ensures
            cash == self@.cash,
    {
        self.ledger.cash()
    }

    /// The portfolio as it stands: one line for each symbol of which
    /// something is held, in no particular order.
    pub fn get_portfolio(&self) -> (lines: Vec<Holding>)
        ensures
            listed(lines@) == self@.holdings,
            tidy(lines@),
    {
        self.ledger.snapshot().holdings
    }

    /// Settles `order` against `quote`, the answer of the quotation service
    /// for the order's symbol.
    ///
    /// An order for nothing is an invalid argument. A quote that failed makes
    /// the quote unavailable. In both cases the ledger is not looked at and
    /// the outcome carries no snapshot. Otherwise a buy goes to the ledger at
    /// the quoted price, and so does a sell: where the ledger takes the
    /// trade, the outcome is executed and shows the ledger after it; where
    /// the ledger refuses, the outcome names the reason and shows the ledger
    /// unchanged. Unless the order is executed, the ledger is left exactly as
    /// it was.
    ///
    /// `None` is returned, and nothing changed, for a trade that the ledger
    /// would take but whose result does not fit its counters.
    pub fn execute(
        &mut self,
        order: &TradeOrder,
        quote: Result<u64, QuoteError>,
    ) -> (result: Option<TradeOutcome>)
        ensures
            final(self)@ == settled(old(self)@, *order, quote),
            final(self)@.valid(),
            verdict(old(self)@, *order, quote) != Some(Status::Executed) ==> *final(self) == *old(
                self,
            ),
            match result {
                None => verdict(old(self)@, *order, quote) is None,
                Some(outcome) => {
                    &&& verdict(old(self)@, *order, quote) == Some(outcome.status)
                    &&& if outcome.status.decided_by_ledger() {
                        outcome.shows(outcome.status, message_for(outcome.status, quote), final(self)@)
                    } else {
                        outcome.is_bare(outcome.status, message_for(outcome.status, quote))
                    }
                },
            },
    {
        proof {
            self.ledger.always_valid();
        }
        if order.quantity == 0 {
            return Some(TradeOutcome::invalid_amount());
        }
        let price = match quote {
            Err(error) => {
                return Some(TradeOutcome::quote_unavailable(&error));
            },
            Ok(price) => price,
        };
        match order.side {
            Side::Buy => {
                if !self.ledger.buy_fits(order.symbol.as_str(), order.quantity, price) {
                    return None;
                }
                match self.ledger.apply_buy(order.symbol.as_str(), order.quantity, price) {
                    Ok(snapshot) => Some(TradeOutcome::executed(snapshot)),
                    Err(_) => Some(TradeOutcome::insufficient_funds(self.ledger.snapshot())),
                }
            },
            Side::Sell => {
                if !self.ledger.sell_fits(order.symbol.as_str(), order.quantity, price) {
                    return None;
                }
                match self.ledger.apply_sell(order.symbol.as_str(), order.quantity, price) {
                    Ok(snapshot) => Some(TradeOutcome::executed(snapshot)),
                    Err(_) => Some(TradeOutcome::insufficient_holdings(self.ledger.snapshot())),
                }
            },
        }
    }
}

} // verus!
