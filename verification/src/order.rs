//! Orders, and how a request is read into one.

use crate::model::{Side, Trade};
use crate::outcome::{Status, TradeOutcome};
use vstd::prelude::*;
use vstd::string::*;

verus! {

/// One request to buy or sell.
#[derive(Clone, Debug)]
pub struct TradeOrder {
    pub symbol: String,
    pub side: Side,
    /// How much to trade; an order for nothing is not a valid order.
    pub quantity: u64,
}

impl TradeOrder {
    /// This order at `price`, as the ledger sees it.
    pub open spec fn at(self, price: u64) -> Trade {
        Trade {
            side: self.side,
            symbol: self.symbol@,
            quantity: self.quantity as nat,
            price: price as nat,
        }
    }
}

/// `c` is the given letter, in either case.
pub open spec fn is_letter(c: char, lower: char, upper: char) -> bool {
    c == lower || c == upper
}

/// The side that a word names: "buy" or "sell", in any mix of upper and lower
/// case. Any other text names none.
pub open spec fn side_named(text: Seq<char>) -> Option<Side> {
    if text.len() == 3 && is_letter(text[0], 'b', 'B') && is_letter(text[1], 'u', 'U') && is_letter(
        text[2],
        'y',
        'Y',
    ) {
        Some(Side::Buy)
    } else if text.len() == 4 && is_letter(text[0], 's', 'S') && is_letter(text[1], 'e', 'E')
        && is_letter(text[2], 'l', 'L') && is_letter(text[3], 'l', 'L') {
        Some(Side::Sell)
    } else {
        None
    }
}

/// Whether the character at place `i` of `text` is the given letter.
fn letter_at(text: &str, i: usize, lower: char, upper: char) -> (same: bool)
    requires
        i < text@.len(),
    ensures
        same == is_letter(text@[i as int], lower, upper),
{
    let c = text.get_char(i);
    c == lower || c == upper
}

/// Reads the side of a request.
pub fn parse_side(text: &str) -> (side: Option<Side>)
    ensures
        side == side_named(text@),
{
    let n = text.unicode_len();
    if n == 3 {
        if letter_at(text, 0, 'b', 'B') && letter_at(text, 1, 'u', 'U') && letter_at(text, 2, 'y', 'Y') {
            Some(Side::Buy)
        } else {
            None
        }
    } else if n == 4 {
        if letter_at(text, 0, 's', 'S') && letter_at(text, 1, 'e', 'E') && letter_at(text, 2, 'l', 'L')
            && letter_at(text, 3, 'l', 'L') {
            Some(Side::Sell)
        } else {
            None
        }
    } else {
        None
    }
}

/// Reads a request into an order, before any price is asked for and before
/// the ledger is looked at. A side that is neither buy nor sell is an invalid
/// argument, and so is an amount of zero; the side is judged first.
pub fn decode_order(symbol: String, side: &str, amount: u64) -> (result: Result<TradeOrder, TradeOutcome>)
    ensures
        match result {
            Ok(order) => {
                &&& side_named(side@) == Some(order.side)
                &&& amount > 0
                &&& order.symbol == symbol
                &&& order.quantity == amount
            },
            Err(outcome) => if side_named(side@) is None {
                outcome.is_bare(Status::InvalidArgument, "Trade must be 'buy' or 'sell'"@)
            } else {
                amount == 0 && outcome.is_bare(Status::InvalidArgument, "Amount must be positive"@)
            },
        },
{
    match parse_side(side) {
        None => Err(TradeOutcome::invalid_side()),
        Some(side) => if amount == 0 {
            Err(TradeOutcome::invalid_amount())
        } else {
            Ok(TradeOrder { symbol, side, quantity: amount })
        },
    }
}

} // verus!
