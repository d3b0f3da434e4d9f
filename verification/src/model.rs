//! The ledger as mathematics: a cash balance and the shares held under each
//! symbol, with the two moves that change them. The executable ledger, its
//! snapshots and the engine are all specified against this model.

use vstd::prelude::*;

verus! {

/// The two sides of an order.
#[derive(Clone, Copy, Debug, PartialEq, Eq, Structural)]
pub enum Side {
    Buy,
    Sell,
}

/// One order at one price, as the ledger sees it.
pub struct Trade {
    pub side: Side,
    pub symbol: Seq<char>,
    pub quantity: nat,
    pub price: nat,
}

/// Cash and holdings. A symbol without an entry is a symbol of which nothing
/// is held; a valid state keeps no entry for such a symbol.
#[verifier::ext_equal]
pub struct LedgerState {
    pub cash: int,
    pub holdings: Map<Seq<char>, int>,
}

impl LedgerState {
    /// The state a ledger starts in: the given cash and no holdings.
    pub open spec fn opening(cash: int) -> LedgerState {
        LedgerState { cash, holdings: Map::empty() }
    }

    /// Cash is not negative, and every entry is a holding of at least one
    /// share unit.
    pub open spec fn valid(self) -> bool {
        &&& self.cash >= 0
        &&& forall|symbol: Seq<char>| #[trigger]
            self.holdings.contains_key(symbol) ==> self.holdings[symbol] > 0
    }

    /// The shares held of `symbol`: zero where it has no entry.
    pub open spec fn position(self, symbol: Seq<char>) -> int {
        if self.holdings.contains_key(symbol) {
            self.holdings[symbol]
        } else {
            0
        }
    }

    /// The holdings with the position of `symbol` set to `quantity`; a
    /// position of zero leaves no entry behind.
    pub open spec fn holdings_with(self, symbol: Seq<char>, quantity: int) -> Map<Seq<char>, int> {
        if quantity > 0 {
            self.holdings.insert(symbol, quantity)
        } else {
            self.holdings.remove(symbol)
        }
    }

    /// Cash covers `quantity` at `price`.
    pub open spec fn affords(self, quantity: nat, price: nat) -> bool {
        price * quantity <= self.cash
    }

    /// At least `quantity` of `symbol` is held.
    pub open spec fn holds(self, symbol: Seq<char>, quantity: nat) -> bool {
        quantity <= self.position(symbol)
    }

    /// A buy: the cost leaves cash and the shares join the position. A buy
    /// that cash does not cover changes nothing.
    pub open spec fn buy(self, symbol: Seq<char>, quantity: nat, price: nat) -> LedgerState {
        if self.affords(quantity, price) {
            LedgerState {
                cash: self.cash - price * quantity,
                holdings: self.holdings_with(symbol, self.position(symbol) + quantity),
            }
        } else {
            self
        }
    }

    /// A sell: the shares leave the position and the proceeds join cash. A
    /// sell of more than is held changes nothing.
    pub open spec fn sell(self, symbol: Seq<char>, quantity: nat, price: nat) -> LedgerState {
        if self.holds(symbol, quantity) {
            LedgerState {
                cash: self.cash + price * quantity,
                holdings: self.holdings_with(symbol, self.position(symbol) - quantity),
            }
        } else {
            self
        }
    }

    /// The ledger takes this trade: cash covers a buy, the position covers a
    /// sell.
    pub open spec fn accepts(self, trade: Trade) -> bool {
        match trade.side {
            Side::Buy => self.affords(trade.quantity, trade.price),
            Side::Sell => self.holds(trade.symbol, trade.quantity),
        }
    }

    /// The state after one trade, taken or refused.
    pub open spec fn apply(self, trade: Trade) -> LedgerState {
        match trade.side {
            Side::Buy => self.buy(trade.symbol, trade.quantity, trade.price),
            Side::Sell => self.sell(trade.symbol, trade.quantity, trade.price),
        }
    }

    /// The state after a run of trades, applied one after the other.
    pub open spec fn run(self, trades: Seq<Trade>) -> LedgerState
        decreases trades.len(),
    {
        if trades.len() == 0 {
            self
        } else {
            self.run(trades.drop_last()).apply(trades.last())
        }
    }
}

/// What a run of trades costs if every one of them is a buy that is taken.
pub open spec fn total_cost(trades: Seq<Trade>) -> int
    decreases trades.len(),
{
    if trades.len() == 0 {
        0
    } else {
        total_cost(trades.drop_last()) + trades.last().price * trades.last().quantity
    }
}

} // verus!
