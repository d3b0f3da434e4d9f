//! A paper-trading account for scripts and back-tests: the same ledger as the
//! engine's, driven with prices that the caller supplies, and quiet about
//! refusals. A trade that the ledger refuses is simply not made.

use crate::ledger::{buy_of, fits, sell_of, Ledger};
use crate::model::LedgerState;
use crate::snapshot::{listed, tidy, Holding};
use vstd::prelude::*;

verus! {

/// A simulated account: cash and a portfolio.
pub struct MockExecutor {
    ledger: Ledger,
}

impl View for MockExecutor {
    type V = LedgerState;

    closed spec fn view(&self) -> LedgerState {
        self.ledger@
    }
}

impl Default for MockExecutor {
    /// An account with no cash and no holdings.
    fn default() -> (account: MockExecutor)
        ensures
            account@ == LedgerState::opening(0),
    {
        MockExecutor::new(0)
    }
}

impl MockExecutor {
    /// An account that starts with `initial_cash` and no holdings.
    pub fn new(initial_cash: u64) -> (account: MockExecutor)
        ensures
            account@ == LedgerState::opening(initial_cash as int),
    {
        MockExecutor { ledger: Ledger::new(initial_cash) }
    }

    /// Every account, whatever trades it has made, is in a valid state, with
    /// cash and every position a number of 64 bits.
    pub proof fn always_valid(&self)
        ensures
            self@.valid(),
            self@.cash <= u64::MAX,
            forall|symbol: Seq<char>| 0 <= #[trigger] self@.position(symbol) <= u64::MAX,
    {
        self.ledger.always_valid();
    }

    /// Buys `quantity` of `ticker` at `price` if cash covers the cost, and says
    /// whether the buy was made; a buy that cash does not cover changes
    /// nothing. `None` is for a buy that cash covers but whose position would
    /// pass what the account can count; it changes nothing either.
    pub fn buy(&mut self, ticker: String, price: u64, quantity: u64) -> (made: Option<bool>)
        ensures
            final(self)@.valid(),
            match made {
                Some(made) => {
                    &&& fits(old(self)@, buy_of(ticker@, quantity, price))
                    &&& made == old(self)@.affords(quantity as nat, price as nat)
                    &&& final(self)@ == old(self)@.buy(ticker@, quantity as nat, price as nat)
                    &&& !made ==> *final(self) == *old(self)
                },
                None => {
                    &&& !fits(old(self)@, buy_of(ticker@, quantity, price))
                    &&& *final(self) == *old(self)
                },
            },
    {
        proof {
            self.ledger.always_valid();
        }
        if self.ledger.buy_fits(ticker.as_str(), quantity, price) {
            Some(self.ledger.apply_buy(ticker.as_str(), quantity, price).is_ok())
        } else {
            None
        }
    }

    /// Sells `quantity` of `ticker` at `price` if that much is held, and says
    /// whether the sell was made; a sell of more than is held changes
    /// nothing. `None` is for a sell that holdings cover but whose proceeds
    /// would raise cash past what the account can count; it changes nothing
    /// either.
    pub fn sell(&mut self, ticker: String, price: u64, quantity: u64) -> (made: Option<bool>)
        ensures
            final(self)@.valid(),
            match made {
                Some(made) => {
                    &&& fits(old(self)@, sell_of(ticker@, quantity, price))
                    &&& made == old(self)@.holds(ticker@, quantity as nat)
                    &&& final(self)@ == old(self)@.sell(ticker@, quantity as nat, price as nat)
                    &&& !made ==> *final(self) == *old(self)
                },
                None => {
                    &&& !fits(old(self)@, sell_of(ticker@, quantity, price))
                    &&& *final(self) == *old(self)
                },
            },
    {
        proof {
            self.ledger.always_valid();
        }
        if self.ledger.sell_fits(ticker.as_str(), quantity, price) {
            Some(self.ledger.apply_sell(ticker.as_str(), quantity, price).is_ok())
        } else {
            None
        }
    }

    /// The cash at hand.
    pub fn get_cash(&self) -> (cash: u64)
        ensures
            cash == self@.cash,
    {
        self.ledger.cash()
    }

    /// The portfolio as it stands: one line for each ticker of which
    /// something is held, in no particular order.
    pub fn get_portfolio(&self) -> (lines: Vec<Holding>)
        ensures
            listed(lines@) == self@.holdings,
            tidy(lines@),
    {
        self.ledger.snapshot().holdings
    }
}

} // verus!
