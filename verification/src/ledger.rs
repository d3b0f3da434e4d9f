//! The ledger: cash and positions behind two check-and-apply operations.
//!
//! A ledger is changed only through `&mut`, so whoever holds it holds it
//! alone: a caller that shares one between tasks puts it behind a single
//! lock, and every operation here is then one step under that lock, the
//! snapshot it returns included.
//!
//! A position that is sold out stays in the book with a count of zero. Every
//! read takes such an entry for no holding, and no snapshot lists it.

use crate::book::{book_entries, book_get, book_insert, book_list, book_new, lists};
use crate::model::{LedgerState, Side, Trade};
use crate::snapshot::{lemma_listed_has_each_line, lemma_listed_push, listed, tidy, Holding, Snapshot};
use dashmap::DashMap;
use vstd::prelude::*;

verus! {

/// A buy was refused: its cost is more than the cash at hand.
#[derive(Clone, Copy, Debug, PartialEq, Eq, Structural)]
pub struct InsufficientFunds;

/// A sell was refused: it asks for more shares than are held.
#[derive(Clone, Copy, Debug, PartialEq, Eq, Structural)]
pub struct InsufficientHoldings;

/// The holdings that a book's entries stand for: an entry that stores zero
/// is no holding.
pub open spec fn held(entries: Map<Seq<char>, u64>) -> Map<Seq<char>, int> {
    Map::new(
        |symbol: Seq<char>| entries.contains_key(symbol) && entries[symbol] > 0,
        |symbol: Seq<char>| entries[symbol] as int,
    )
}

/// A buy of `quantity` of `symbol` at `price`.
pub open spec fn buy_of(symbol: Seq<char>, quantity: u64, price: u64) -> Trade {
    Trade { side: Side::Buy, symbol, quantity: quantity as nat, price: price as nat }
}

/// A sell of `quantity` of `symbol` at `price`.
pub open spec fn sell_of(symbol: Seq<char>, quantity: u64, price: u64) -> Trade {
    Trade { side: Side::Sell, symbol, quantity: quantity as nat, price: price as nat }
}

/// The ledger counts in 64 bits. A trade fits if, once taken, the position
/// it raises or the cash it raises is still such a number. A trade that the
/// ledger refuses always fits.
pub open spec fn fits(state: LedgerState, trade: Trade) -> bool {
    match trade.side {
        Side::Buy => state.affords(trade.quantity, trade.price) ==> state.position(trade.symbol)
            + trade.quantity <= u64::MAX,
        Side::Sell => state.holds(trade.symbol, trade.quantity) ==> state.cash + trade.price
            * trade.quantity <= u64::MAX,
    }
}

/// Cash and the position book.
pub struct Ledger {
    cash: u64,
    positions: DashMap<String, u64>,
}

impl View for Ledger {
    type V = LedgerState;

    closed spec fn view(&self) -> LedgerState {
        LedgerState { cash: self.cash as int, holdings: held(book_entries(self.positions)) }
    }
}

/// The product of two 64-bit numbers is a number of 128 bits.
proof fn lemma_product_fits(price: u64, quantity: u64)
    ensures
        price * quantity <= u128::MAX,
{
    assert(price * quantity <= 0xffff_ffff_ffff_ffff * 0xffff_ffff_ffff_ffff) by (nonlinear_arith)
        requires
            0 <= price <= 0xffff_ffff_ffff_ffff,
            0 <= quantity <= 0xffff_ffff_ffff_ffff,
    ;
}

impl Ledger {
    /// A ledger with `initial_cash` and no holdings.
    pub fn new(initial_cash: u64) -> (ledger: Ledger)
        ensures
            ledger@ == LedgerState::opening(initial_cash as int),
    {
        Ledger { cash: initial_cash, positions: book_new() }
    }

    /// Every ledger, whatever was done to it, is in a valid state: cash is not
    /// negative and no entry of its holdings is empty. Cash and every position
    /// are numbers of 64 bits.
    pub proof fn always_valid(&self)
        ensures
            self@.valid(),
            self@.cash <= u64::MAX,
            forall|symbol: Seq<char>| 0 <= #[trigger] self@.position(symbol) <= u64::MAX,
    {
    }

    /// The cash at hand.
    pub fn cash(&self) -> (cash: u64)
        ensures
            cash == self@.cash,
    {
        self.cash
    }

    /// The shares held of `symbol`; zero for a symbol never traded.
    pub fn position(&self, symbol: &str) -> (quantity: u64)
        ensures
            quantity == self@.position(symbol@),
    {
        match book_get(&self.positions, symbol) {
            Some(quantity) => quantity,
            None => 0,
        }
    }

    /// A copy of cash and holdings as they stand, one line for each symbol of
    /// which something is held.
    pub fn snapshot(&self) -> (snapshot: Snapshot)
        ensures
            snapshot@ == self@,
            tidy(snapshot.holdings@),
    {
        let mut pairs = book_list(&self.positions);
        let mut lines: Vec<Holding> = Vec::new();
        let ghost all = pairs@;
        let ghost entries = book_entries(self.positions);
        while pairs.len() > 0
            invariant
                lists(all, entries),
                pairs@ == all.take(pairs.len() as int),
                pairs.len() <= all.len(),
                tidy(lines@),
                forall|symbol: Seq<char>| #[trigger]
                    listed(lines@).contains_key(symbol) ==> {
                        &&& entries.contains_key(symbol)
                        &&& entries[symbol] > 0
                        &&& listed(lines@)[symbol] == entries[symbol]
                        &&& exists|j: int|
                            pairs.len() <= j < all.len() && (#[trigger] all[j]).0@ == symbol
                    },
                forall|j: int|
                    pairs.len() <= j < all.len() && (#[trigger] all[j]).1 > 0 ==> listed(
                        lines@,
                    ).contains_key(all[j].0@),
            decreases pairs.len(),
        {
            let ghost n = pairs.len() - 1;
            let pair = pairs.pop().unwrap();
            proof {
                assert(pair == all[n]);
                assert(pairs@ =~= all.take(n));
            }
            if pair.1 > 0 {
                let line = Holding { symbol: pair.0, quantity: pair.1 };
                proof {
                    lemma_listed_push(lines@, line);
                    lemma_listed_has_each_line(lines@);
                    // A line already written came from a later pair, and no
                    // two pairs share a symbol.
                    assert forall|i: int| 0 <= i < lines@.len() implies (#[trigger] lines@[i]).symbol@
                        != line.symbol@ by {
                        let symbol = lines@[i].symbol@;
                        let j = choose|j: int| n < j < all.len() && (#[trigger] all[j]).0@ == symbol;
                        assert(all[n].0@ != all[j].0@);
                    }
                }
                lines.push(line);
            }
        }
        proof {
            // Every holding has a pair, and its pair has been written.
            assert forall|symbol: Seq<char>| #[trigger]
                held(entries).contains_key(symbol) implies listed(lines@).contains_key(symbol) by {
                let j = choose|j: int| 0 <= j < all.len() && (#[trigger] all[j]).0@ == symbol;
                assert(all[j].1 == entries[symbol]);
            }
        }
        Snapshot { cash: self.cash, holdings: lines }
    }

    /// Whether a buy of `quantity` of `symbol` at `price` fits this ledger's
    /// counters: the test to make before [`Ledger::apply_buy`].
    pub fn buy_fits(&self, symbol: &str, quantity: u64, price: u64) -> (ok: bool)
        ensures
            ok == fits(self@, buy_of(symbol@, quantity, price)),
    {
        proof {
            lemma_product_fits(price, quantity);
        }
        let cost: u128 = price as u128 * quantity as u128;
        if cost > self.cash as u128 {
            true
        } else {
            let held = self.position(symbol);
            quantity <= u64::MAX - held
        }
    }

    /// Whether a sell of `quantity` of `symbol` at `price` fits this ledger's
    /// counters: the test to make before [`Ledger::apply_sell`].
    pub fn sell_fits(&self, symbol: &str, quantity: u64, price: u64) -> (ok: bool)
        ensures
            ok == fits(self@, sell_of(symbol@, quantity, price)),
    {
        proof {
            lemma_product_fits(price, quantity);
        }
        if self.position(symbol) < quantity {
            true
        } else {
            let proceeds: u128 = price as u128 * quantity as u128;
            proceeds <= (u64::MAX - self.cash) as u128
        }
    }

    /// Buys `quantity` of `symbol` at `price`, if cash covers the cost
    /// `price * quantity`: the cost leaves cash, the shares join the position,
    /// and the snapshot returned shows the ledger right after. Otherwise the
    /// buy is refused and the ledger is left exactly as it was.
    pub fn apply_buy(&mut self, symbol: &str, quantity: u64, price: u64) -> (result: Result<
        Snapshot,
        InsufficientFunds,
    >)
        requires
            fits(old(self)@, buy_of(symbol@, quantity, price)),
        ensures
            final(self)@ == old(self)@.buy(symbol@, quantity as nat, price as nat),
            final(self)@.valid(),
            match result {
                Ok(snapshot) => {
                    &&& old(self)@.affords(quantity as nat, price as nat)
                    &&& snapshot@ == final(self)@
                    &&& tidy(snapshot.holdings@)
                },
                Err(_) => {
                    &&& !old(self)@.affords(quantity as nat, price as nat)
                    &&& *final(self) == *old(self)
                },
            },
    {
        proof {
            lemma_product_fits(price, quantity);
        }
        let cost: u128 = price as u128 * quantity as u128;
        if cost > self.cash as u128 {
            return Err(InsufficientFunds);
        }
        let held = self.position(symbol);
        self.cash = self.cash - cost as u64;
        book_insert(&mut self.positions, symbol.to_owned(), held + quantity);
        Ok(self.snapshot())
    }

    /// Sells `quantity` of `symbol` at `price`, if that much is held: the
    /// shares leave the position, the proceeds `price * quantity` join cash,
    /// and the snapshot returned shows the ledger right after. Otherwise the
    /// sell is refused and the ledger is left exactly as it was.
    pub fn apply_sell(&mut self, symbol: &str, quantity: u64, price: u64) -> (result: Result<
        Snapshot,
        InsufficientHoldings,
    >)
        requires
            fits(old(self)@, sell_of(symbol@, quantity, price)),
        ensures
            final(self)@ == old(self)@.sell(symbol@, quantity as nat, price as nat),
            final(self)@.valid(),
            match result {
                Ok(snapshot) => {
                    &&& old(self)@.holds(symbol@, quantity as nat)
                    &&& snapshot@ == final(self)@
                    &&& tidy(snapshot.holdings@)
                },
                Err(_) => {
                    &&& !old(self)@.holds(symbol@, quantity as nat)
                    &&& *final(self) == *old(self)
                },
            },
    {
        let held = self.position(symbol);
        if held < quantity {
            return Err(InsufficientHoldings);
        }
        let proceeds: u128 = price as u128 * quantity as u128;
        self.cash = self.cash + proceeds as u64;
        book_insert(&mut self.positions, symbol.to_owned(), held - quantity);
        Ok(self.snapshot())
    }
}

} // verus!
