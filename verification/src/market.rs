//! The market data of the cache: bounded series of quotes, trades and bars,
//! and the slots that hold the latest order book and the latest bid and ask
//! bar of each key.

use crate::identifiers::{Id, InstrumentId};
use crate::index_model::Name;
use crate::keyed::KeyedStore;
use crate::series::{appended, Series, SeriesStore};
use crate::validation::ValidationError;
use nautilus_model::data::{Bar, QuoteTick, TradeTick};
use nautilus_model::orderbook::OrderBook;
use vstd::hash_map::StringHashMap;
use vstd::prelude::*;

verus! {

/// The price that a bar was built from.
#[derive(Clone, Copy, Debug, PartialEq, Eq, Structural)]
pub enum PriceType {
    Bid,
    Ask,
    Mid,
    Last,
    Mark,
}

/// Marks the identifier of a bar type.
pub struct BarTypeKind;

/// A bar type: the identifier that its series is kept under, and the price
/// that its bars are built from.
pub struct BarType {
    id: Id<BarTypeKind>,
    price_type: PriceType,
}

impl BarType {
    /// The string that the bars of this type are kept under.
    pub closed spec fn key(&self) -> Name {
        self.id@
    }

    /// The price that the bars of this type are built from.
    pub closed spec fn side(&self) -> PriceType {
        self.price_type
    }

    /// Builds a bar type, or rejects a string that is empty, blank or not
    /// ASCII.
    pub fn new(value: &str, price_type: PriceType) -> (r: Result<Self, ValidationError>)
        ensures
            crate::validation::valid_string(value@) ==> r is Ok && r->Ok_0.key() == value@
                && r->Ok_0.side() == price_type,
            !crate::validation::valid_string(value@) ==> r is Err && r->Err_0
                == ValidationError::InvalidIdentifier,
    {
        match Id::new(value) {
            Ok(id) => Ok(BarType { id, price_type }),
            Err(e) => Err(e),
        }
    }

    /// The string that the bars of this type are kept under.
    pub fn as_str(&self) -> (s: &str)
        ensures
            s@ == self.key(),
    {
        self.id.as_str()
    }

    /// The price that the bars of this type are built from.
    pub fn price_type(&self) -> (price_type: PriceType)
        ensures
            price_type == self.side(),
    {
        self.price_type
    }
}

/// What the market data store holds.
pub struct TimeSeriesView {
    /// The ceiling of every quote and trade series.
    pub tick_capacity: nat,
    /// The ceiling of every bar series.
    pub bar_capacity: nat,
    /// Instrument to its quotes, oldest first.
    pub quotes: Map<Name, Seq<QuoteTick>>,
    /// Instrument to its trades, oldest first.
    pub trades: Map<Name, Seq<TradeTick>>,
    /// Bar type to its bars, oldest first.
    pub bars: Map<Name, Seq<Bar>>,
    /// Instrument to its order book.
    pub books: Map<Name, OrderBook>,
    /// Bar type to the latest bar built from bid prices.
    pub bars_bid: Map<Name, Bar>,
    /// Bar type to the latest bar built from ask prices.
    pub bars_ask: Map<Name, Bar>,
}

impl TimeSeriesView {
    /// The store that holds nothing, with the given capacities.
    pub open spec fn empty(tick_capacity: nat, bar_capacity: nat) -> TimeSeriesView {
        TimeSeriesView {
            tick_capacity,
            bar_capacity,
            quotes: Map::empty(),
            trades: Map::empty(),
            bars: Map::empty(),
            books: Map::empty(),
            bars_bid: Map::empty(),
            bars_ask: Map::empty(),
        }
    }

    /// The store after a quote was added for `instrument`.
    pub open spec fn with_quote(self, instrument: Name, quote: QuoteTick) -> TimeSeriesView {
        TimeSeriesView {
            quotes: appended(self.quotes, instrument, quote, self.tick_capacity),
            ..self
        }
    }

    /// The store after a trade was added for `instrument`.
    pub open spec fn with_trade(self, instrument: Name, trade: TradeTick) -> TimeSeriesView {
        TimeSeriesView {
            trades: appended(self.trades, instrument, trade, self.tick_capacity),
            ..self
        }
    }

    /// The store after a bar of the given type was added: the bar joins the
    /// series of its type, and a bar built from bid or ask prices also
    /// replaces the latest bar of its type and side.
    pub open spec fn with_bar(self, key: Name, side: PriceType, bar: Bar) -> TimeSeriesView {
        TimeSeriesView {
            bars: appended(self.bars, key, bar, self.bar_capacity),
            bars_bid: if side == PriceType::Bid {
                self.bars_bid.insert(key, bar)
            } else {
                self.bars_bid
            },
            bars_ask: if side == PriceType::Ask {
                self.bars_ask.insert(key, bar)
            } else {
                self.bars_ask
            },
            ..self
        }
    }

    /// The store after `book` became the order book of `instrument`.
    pub open spec fn with_book(self, instrument: Name, book: OrderBook) -> TimeSeriesView {
        TimeSeriesView { books: self.books.insert(instrument, book), ..self }
    }
}

/// The market data store. Its view is a [`TimeSeriesView`].
pub struct TimeSeriesStore {
    quote_ticks: SeriesStore<QuoteTick>,
    trade_ticks: SeriesStore<TradeTick>,
    order_books: KeyedStore<OrderBook>,
    bars: SeriesStore<Bar>,
    bars_bid: StringHashMap<Bar>,
    bars_ask: StringHashMap<Bar>,
}

impl View for TimeSeriesStore {
    type V = TimeSeriesView;

    closed spec fn view(&self) -> TimeSeriesView {
        TimeSeriesView {
            tick_capacity: self.quote_ticks.spec_capacity() as nat,
            bar_capacity: self.bars.spec_capacity() as nat,
            quotes: self.quote_ticks@,
            trades: self.trade_ticks@,
            bars: self.bars@,
            books: self.order_books@,
            bars_bid: self.bars_bid@,
            bars_ask: self.bars_ask@,
        }
    }
}

impl TimeSeriesStore {
    /// Holds of every store that this module hands out.
    pub closed spec fn wf(&self) -> bool {
        &&& self.quote_ticks.wf()
        &&& self.trade_ticks.wf()
        &&& self.bars.wf()
        &&& self.order_books.wf()
        &&& self.trade_ticks.spec_capacity() == self.quote_ticks.spec_capacity()
    }

    /// No series of a well-formed store is longer than its capacity.
    pub proof fn lemma_within_capacity(self, key: Name)
        requires
            self.wf(),
        ensures
            crate::series::series_of(self@.quotes, key).len() <= self@.tick_capacity,
            crate::series::series_of(self@.trades, key).len() <= self@.tick_capacity,
            crate::series::series_of(self@.bars, key).len() <= self@.bar_capacity,
    {
        self.quote_ticks.lemma_within_capacity(key);
        self.trade_ticks.lemma_within_capacity(key);
        self.bars.lemma_within_capacity(key);
    }

    /// The store that holds nothing, with the given capacities.
    pub fn new(tick_capacity: usize, bar_capacity: usize) -> (store: Self)
        ensures
            store.wf(),
            store@ == TimeSeriesView::empty(tick_capacity as nat, bar_capacity as nat),
    {
        TimeSeriesStore {
            quote_ticks: SeriesStore::new(tick_capacity),
            trade_ticks: SeriesStore::new(tick_capacity),
            order_books: KeyedStore::new(),
            bars: SeriesStore::new(bar_capacity),
            bars_bid: StringHashMap::new(),
            bars_ask: StringHashMap::new(),
        }
    }

    /// Appends a quote to the series of the instrument, evicting the oldest
    /// quote first where the series is full.
    pub fn add_quote(&mut self, instrument_id: &InstrumentId, quote: QuoteTick)
        requires
            old(self).wf(),
        ensures
            final(self).wf(),
            final(self)@ == old(self)@.with_quote(instrument_id@, quote),
    {
        self.quote_ticks.push(instrument_id.as_str(), quote);
    }

    /// Appends a trade to the series of the instrument, evicting the oldest
    /// trade first where the series is full.
    pub fn add_trade(&mut self, instrument_id: &InstrumentId, trade: TradeTick)
        requires
            old(self).wf(),
        ensures
            final(self).wf(),
            final(self)@ == old(self)@.with_trade(instrument_id@, trade),
    {
        self.trade_ticks.push(instrument_id.as_str(), trade);
    }

    /// Appends a bar to the series of its type, evicting the oldest bar first
    /// where the series is full. A bar built from bid or ask prices also
    /// becomes the latest bar of its type and side.
    pub fn add_bar(&mut self, bar_type: &BarType, bar: Bar)
        requires
            old(self).wf(),
        ensures
            final(self).wf(),
            final(self)@ == old(self)@.with_bar(bar_type.key(), bar_type.side(), bar),
    {
        match bar_type.price_type() {
            PriceType::Bid => {
                self.bars_bid.insert(bar_type.as_str().to_owned(), bar);
            },
            PriceType::Ask => {
                self.bars_ask.insert(bar_type.as_str().to_owned(), bar);
            },
            _ => {},
        }
        self.bars.push(bar_type.as_str(), bar);
    }

    /// The quotes kept for the instrument, if any were added.
    pub fn quotes(&self, instrument_id: &InstrumentId) -> (series: Option<&Series<QuoteTick>>)
        requires
            self.wf(),
        ensures
            match series {
                Some(s) => self@.quotes.contains_key(instrument_id@) && s@
                    == self@.quotes[instrument_id@],
                None => !self@.quotes.contains_key(instrument_id@),
            },
    {
        self.quote_ticks.get(instrument_id.as_str())
    }

    /// The trades kept for the instrument, if any were added.
    pub fn trades(&self, instrument_id: &InstrumentId) -> (series: Option<&Series<TradeTick>>)
        requires
            self.wf(),
        ensures
            match series {
                Some(s) => self@.trades.contains_key(instrument_id@) && s@
                    == self@.trades[instrument_id@],
                None => !self@.trades.contains_key(instrument_id@),
            },
    {
        self.trade_ticks.get(instrument_id.as_str())
    }

    /// The bars kept for the bar type, if any were added.
    pub fn bars(&self, bar_type: &BarType) -> (series: Option<&Series<Bar>>)
        requires
            self.wf(),
        ensures
            match series {
                Some(s) => self@.bars.contains_key(bar_type.key()) && s@
                    == self@.bars[bar_type.key()],
                None => !self@.bars.contains_key(bar_type.key()),
            },
    {
        self.bars.get(bar_type.as_str())
    }

    /// The latest bar of the type that was built from bid prices, if any.
    pub fn latest_bid_bar(&self, bar_type: &BarType) -> (bar: Option<&Bar>)
        ensures
            match bar {
                Some(b) => self@.bars_bid.contains_key(bar_type.key()) && *b
                    == self@.bars_bid[bar_type.key()],
                None => !self@.bars_bid.contains_key(bar_type.key()),
            },
    {
        self.bars_bid.get(bar_type.as_str())
    }

    /// The latest bar of the type that was built from ask prices, if any.
    pub fn latest_ask_bar(&self, bar_type: &BarType) -> (bar: Option<&Bar>)
        ensures
            match bar {
                Some(b) => self@.bars_ask.contains_key(bar_type.key()) && *b
                    == self@.bars_ask[bar_type.key()],
                None => !self@.bars_ask.contains_key(bar_type.key()),
            },
    {
        self.bars_ask.get(bar_type.as_str())
    }

    /// The order book of the instrument, if it has one.
    pub fn get_book(&self, instrument_id: &InstrumentId) -> (book: Option<&OrderBook>)
        requires
            self.wf(),
        ensures
            match book {
                Some(b) => self@.books.contains_key(instrument_id@) && *b
                    == self@.books[instrument_id@],
                None => !self@.books.contains_key(instrument_id@),
            },
    {
        self.order_books.get(instrument_id.as_str())
    }

    /// Replaces the order book of the instrument wholesale with `book`.
    pub fn apply_book_snapshot(&mut self, instrument_id: &InstrumentId, book: OrderBook)
        requires
            old(self).wf(),
        ensures
            final(self).wf(),
            final(self)@ == old(self)@.with_book(instrument_id@, book),
    {
        self.order_books.insert(instrument_id.as_str(), book);
    }

    /// The order book of the instrument for updating in place, if it has
    /// one. Whatever the caller does to the book, nothing else changes.
    pub fn book_mut(&mut self, instrument_id: &InstrumentId) -> (book: Option<&mut OrderBook>)
        requires
            old(self).wf(),
        ensures
            final(self).wf(),
            match book {
                Some(b) => {
                    &&& old(self)@.books.contains_key(instrument_id@)
                    &&& *b == old(self)@.books[instrument_id@]
                    &&& final(self)@ == old(self)@.with_book(instrument_id@, *final(b))
                },
                None => {
                    &&& !old(self)@.books.contains_key(instrument_id@)
                    &&& final(self)@ == old(self)@
                },
            },
    {
        self.order_books.get_mut(instrument_id.as_str())
    }

    /// Drops every series, book and latest bar. The capacities stay.
    pub fn clear(&mut self)
        requires
            old(self).wf(),
        ensures
            final(self).wf(),
            final(self)@ == TimeSeriesView::empty(
                old(self)@.tick_capacity,
                old(self)@.bar_capacity,
            ),
    {
        self.quote_ticks.clear();
        self.trade_ticks.clear();
        self.order_books.clear();
        self.bars.clear();
        self.bars_bid.clear();
        self.bars_ask.clear();
    }
}

} // verus!
