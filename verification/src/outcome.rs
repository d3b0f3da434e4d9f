//! What the engine answers to one order: how it ended, a sentence for people,
//! and the ledger as it stood when the ledger was asked.

use crate::model::LedgerState;
use crate::snapshot::{tidy, Snapshot};
use vstd::prelude::*;
use vstd::string::*;

verus! {

/// How an order ended. Each failure is a kind of its own, so that a caller can
/// tell a refusal by the ledger from a quote that could not be had.
#[derive(Clone, Copy, Debug, PartialEq, Eq, Structural)]
pub enum Status {
    /// The trade was applied to the ledger.
    Executed,
    /// The request was malformed: an unknown side, or an amount of zero.
    InvalidArgument,
    /// No price could be had for the symbol.
    QuoteUnavailable,
    /// The ledger refused a buy: its cost is more than the cash at hand.
    InsufficientFunds,
    /// The ledger refused a sell: it asks for more shares than are held.
    InsufficientHoldings,
}

impl Status {
    /// The kinds that the ledger decides. Only their outcomes carry a
    /// snapshot: the other kinds end before the ledger is looked at.
    pub open spec fn decided_by_ledger(self) -> bool {
        self == Status::Executed || self == Status::InsufficientFunds || self
            == Status::InsufficientHoldings
    }

    /// The gRPC status code under which this kind travels: `OK` for an order
    /// that was executed, and for each kind of failure a code of its own,
    /// `INVALID_ARGUMENT`, `UNAVAILABLE`, `RESOURCE_EXHAUSTED` and
    /// `FAILED_PRECONDITION`.
    pub open spec fn code(self) -> int {
        match self {
            Status::Executed => 0,
            Status::InvalidArgument => 3,
            Status::QuoteUnavailable => 14,
            Status::InsufficientFunds => 8,
            Status::InsufficientHoldings => 9,
        }
    }

    /// The gRPC status code of this kind, for the caller that answers over
    /// RPC.
    pub fn rpc_code(self) -> (code: i32)
        ensures
            code == self.code(),
    {
        match self {
            Status::Executed => 0,
            Status::InvalidArgument => 3,
            Status::QuoteUnavailable => 14,
            Status::InsufficientFunds => 8,
            Status::InsufficientHoldings => 9,
        }
    }
}

/// Why no price came back from the quotation service.
#[derive(Clone, Debug)]
pub enum QuoteError {
    /// The service could not be reached, or did not answer in time.
    Connection(String),
    /// The service answered with an error.
    Service(String),
}

impl QuoteError {
    /// The sentence that reports this error.
    pub open spec fn text(self) -> Seq<char> {
        match self {
            QuoteError::Connection(detail) => "Failed to connect to quote service: "@ + detail@,
            QuoteError::Service(detail) => "Quote error: "@ + detail@,
        }
    }
}

/// The answer to one order.
#[derive(Clone, Debug)]
pub struct TradeOutcome {
    pub status: Status,
    pub message: String,
    /// Cash and holdings at the moment the ledger decided: after the trade
    /// where it was applied, unchanged where the ledger refused it.
    pub snapshot: Option<Snapshot>,
}

impl TradeOutcome {
    /// This outcome has the given status and message and carries no snapshot.
    pub open spec fn is_bare(self, status: Status, message: Seq<char>) -> bool {
        &&& self.status == status
        &&& self.message@ == message
        &&& self.snapshot is None
    }

    /// This outcome has the given status and message and carries a snapshot
    /// that shows `state`, one line for each holding.
    pub open spec fn shows(self, status: Status, message: Seq<char>, state: LedgerState) -> bool {
        &&& self.status == status
        &&& self.message@ == message
        &&& self.snapshot matches Some(snapshot)
        &&& snapshot@ == state
        &&& tidy(snapshot.holdings@)
    }

    /// The order was applied; `snapshot` shows the ledger after it.
    pub fn executed(snapshot: Snapshot) -> (outcome: TradeOutcome)
        ensures
            outcome.status == Status::Executed,
            outcome.message@ == "Trade executed"@,
            outcome.snapshot == Some(snapshot),
    {
        TradeOutcome {
            status: Status::Executed,
            message: "Trade executed".to_owned(),
            snapshot: Some(snapshot),
        }
    }

    /// The ledger refused a buy; `snapshot` shows the ledger, unchanged.
    pub fn insufficient_funds(snapshot: Snapshot) -> (outcome: TradeOutcome)
        ensures
            outcome.status == Status::InsufficientFunds,
            outcome.message@ == "Insufficient funds"@,
            outcome.snapshot == Some(snapshot),
    {
        TradeOutcome {
            status: Status::InsufficientFunds,
            message: "Insufficient funds".to_owned(),
            snapshot: Some(snapshot),
        }
    }

    /// The ledger refused a sell; `snapshot` shows the ledger, unchanged.
    pub fn insufficient_holdings(snapshot: Snapshot) -> (outcome: TradeOutcome)
        ensures
            outcome.status == Status::InsufficientHoldings,
            outcome.message@ == "Not enough holdings"@,
            outcome.snapshot == Some(snapshot),
    {
        TradeOutcome {
            status: Status::InsufficientHoldings,
            message: "Not enough holdings".to_owned(),
            snapshot: Some(snapshot),
        }
    }

    /// The request named a side that is neither buy nor sell.
    pub fn invalid_side() -> (outcome: TradeOutcome)
        ensures
            outcome.is_bare(Status::InvalidArgument, "Trade must be 'buy' or 'sell'"@),
    {
        TradeOutcome {
            status: Status::InvalidArgument,
            message: "Trade must be 'buy' or 'sell'".to_owned(),
            snapshot: None,
        }
    }

    /// The request asked for an amount of zero.
    pub fn invalid_amount() -> (outcome: TradeOutcome)
        ensures
            outcome.is_bare(Status::InvalidArgument, "Amount must be positive"@),
    {
        TradeOutcome {
            status: Status::InvalidArgument,
            message: "Amount must be positive".to_owned(),
            snapshot: None,
        }
    }

    /// No price could be had; the message says why.
    pub fn quote_unavailable(error: &QuoteError) -> (outcome: TradeOutcome)
        ensures
            outcome.is_bare(Status::QuoteUnavailable, error.text()),
    {
        let message = match error {
            QuoteError::Connection(detail) => String::from_str(
                "Failed to connect to quote service: ",
            ).concat(detail.as_str()),
            QuoteError::Service(detail) => String::from_str("Quote error: ").concat(detail.as_str()),
        };
        TradeOutcome { status: Status::QuoteUnavailable, message, snapshot: None }
    }
}

} // verus!
