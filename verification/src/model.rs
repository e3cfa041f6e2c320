//! The value types of the domain model that the cache carries. The cache
//! stores them and hands them back; it never looks inside one.

use vstd::prelude::*;

verus! {

/// A top-of-book quote.
#[verifier::external_type_specification]
#[verifier::external_body]
pub struct ExQuoteTick(nautilus_model::data::QuoteTick);

/// A trade.
#[verifier::external_type_specification]
#[verifier::external_body]
pub struct ExTradeTick(nautilus_model::data::TradeTick);

/// A bar.
#[verifier::external_type_specification]
#[verifier::external_body]
pub struct ExBar(nautilus_model::data::Bar);

/// An order book.
#[verifier::external_type_specification]
#[verifier::external_body]
pub struct ExOrderBook(nautilus_model::orderbook::OrderBook);

/// A currency.
#[verifier::external_type_specification]
#[verifier::external_body]
pub struct ExCurrency(nautilus_model::types::Currency);

/// An instrument of any kind.
#[verifier::external_type_specification]
#[verifier::external_body]
pub struct ExInstrumentAny(nautilus_model::instruments::InstrumentAny);

/// A synthetic instrument.
#[verifier::external_type_specification]
#[verifier::external_body]
pub struct ExSyntheticInstrument(nautilus_model::instruments::SyntheticInstrument);

/// An order of any kind.
#[verifier::external_type_specification]
#[verifier::external_body]
pub struct ExOrderAny(nautilus_model::orders::OrderAny);

/// A position.
#[verifier::external_type_specification]
#[verifier::external_body]
pub struct ExPosition(nautilus_model::position::Position);

} // verus!
