//! A trade-execution core: a cash and position ledger, the orders that move
//! it, and the engine that settles one order against one quoted price.
//!
//! Amounts are whole numbers of units that the caller chooses: a quantity in
//! share units, a price in cash units per share unit, cash in cash units. The
//! cost of an order is then exactly `price * quantity`, with no rounding.
//!
//! - [`model`] is the ledger as mathematics; every contract speaks of it.
//! - [`ledger`] is the ledger itself, over the position [`book`], and
//!   [`snapshot`] is what it hands out.
//! - [`order`] reads a request, [`engine`] settles it, [`outcome`] is the
//!   answer.
//! - [`executor`] is a paper-trading account over the same ledger.
//! - [`laws`] states what holds of every ledger.

pub mod book;
pub mod engine;
pub mod executor;
pub mod laws;
pub mod ledger;
pub mod model;
pub mod order;
pub mod outcome;
pub mod snapshot;
