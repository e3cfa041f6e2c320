//! The cache: one owner of the general store, the market data, the reference
//! data, the orders, the positions and the index, with its start-up, reset
//! and disposal.

use crate::config::CacheConfig;
use crate::identifiers::{ClientOrderId, InstrumentId, PositionId};
use crate::index::CacheIndex;
use crate::index_model::{IndexView, Name};
use crate::market::{BarType, TimeSeriesStore, TimeSeriesView};
use crate::persistence::{hydrated, install, load_result, Loaded, PersistenceError};
use crate::reference::{ReferenceDataStore, ReferenceView};
use crate::scratch::{after_put, found, hydrated_blobs, lookup, put_verdict, ScratchStore};
use crate::validation::ValidationError;
use nautilus_model::data::{Bar, QuoteTick, TradeTick};
use nautilus_model::instruments::{InstrumentAny, SyntheticInstrument};
use nautilus_model::orders::OrderAny;
use nautilus_model::position::Position;
use nautilus_model::types::Currency;
use vstd::hash_map::StringHashMap;
use vstd::prelude::*;

verus! {

/// Where a cache stands in its life.
#[derive(Clone, Copy, Debug, PartialEq, Eq, Structural)]
pub enum Phase {
    /// Built, not yet hydrated.
    Uninitialized,
    /// Hydrated and in use.
    Ready,
    /// Disposed of: the end.
    Disposed,
}

/// The categories that hydration loads, in the order in which it loads them.
#[derive(Clone, Copy, Debug, PartialEq, Eq, Structural)]
pub enum HydrationStep {
    General,
    Currencies,
    Instruments,
    Synthetics,
    Orders,
    Positions,
}

impl HydrationStep {
    /// The step after this one, or none after the last.
    pub open spec fn following(self) -> Option<HydrationStep> {
        match self {
            HydrationStep::General => Some(HydrationStep::Currencies),
            HydrationStep::Currencies => Some(HydrationStep::Instruments),
            HydrationStep::Instruments => Some(HydrationStep::Synthetics),
            HydrationStep::Synthetics => Some(HydrationStep::Orders),
            HydrationStep::Orders => Some(HydrationStep::Positions),
            HydrationStep::Positions => None,
        }
    }

    /// The step that hydration starts with.
    pub fn first() -> (step: Self)
        ensures
            step == HydrationStep::General,
    {
        HydrationStep::General
    }

    /// The step after this one, or none after the last.
    pub fn next(self) -> (step: Option<Self>)
        ensures
            step == self.following(),
    {
        match self {
            HydrationStep::General => Some(HydrationStep::Currencies),
            HydrationStep::Currencies => Some(HydrationStep::Instruments),
            HydrationStep::Instruments => Some(HydrationStep::Synthetics),
            HydrationStep::Synthetics => Some(HydrationStep::Orders),
            HydrationStep::Orders => Some(HydrationStep::Positions),
            HydrationStep::Positions => None,
        }
    }
}

/// Which categories have been hydrated since the cache was built.
#[derive(Clone, Copy, Debug, PartialEq, Eq, Structural)]
pub struct Progress {
    pub general: bool,
    pub currencies: bool,
    pub instruments: bool,
    pub synthetics: bool,
    pub orders: bool,
    pub positions: bool,
}

impl Progress {
    /// No category has been hydrated.
    pub open spec fn none() -> Progress {
        Progress {
            general: false,
            currencies: false,
            instruments: false,
            synthetics: false,
            orders: false,
            positions: false,
        }
    }

    /// The progress once `step` is done as well.
    pub open spec fn with(self, step: HydrationStep) -> Progress {
        match step {
            HydrationStep::General => Progress { general: true, ..self },
            HydrationStep::Currencies => Progress { currencies: true, ..self },
            HydrationStep::Instruments => Progress { instruments: true, ..self },
            HydrationStep::Synthetics => Progress { synthetics: true, ..self },
            HydrationStep::Orders => Progress { orders: true, ..self },
            HydrationStep::Positions => Progress { positions: true, ..self },
        }
    }

    /// Whether every category has been hydrated.
    pub open spec fn complete(self) -> bool {
        self.general && self.currencies && self.instruments && self.synthetics && self.orders
            && self.positions
    }

    /// Records that `step` is done.
    pub fn record(&mut self, step: HydrationStep)
        ensures
            *final(self) == old(self).with(step),
    {
        match step {
            HydrationStep::General => self.general = true,
            HydrationStep::Currencies => self.currencies = true,
            HydrationStep::Instruments => self.instruments = true,
            HydrationStep::Synthetics => self.synthetics = true,
            HydrationStep::Orders => self.orders = true,
            HydrationStep::Positions => self.positions = true,
        }
    }

    /// Whether every category has been hydrated.
    pub fn is_complete(&self) -> (complete: bool)
        ensures
            complete == self.complete(),
    {
        self.general && self.currencies && self.instruments && self.synthetics && self.orders
            && self.positions
    }
}

/// What one step of hydration loaded.
pub enum StepData {
    General(Loaded<Vec<u8>>),
    Currencies(Loaded<Currency>),
    Instruments(Loaded<InstrumentAny>),
    Synthetics(Loaded<SyntheticInstrument>),
    Orders(Loaded<OrderAny>),
    Positions(Loaded<Position>),
}

impl StepData {
    /// The step that the data belongs to.
    pub open spec fn step(self) -> HydrationStep {
        match self {
            StepData::General(_) => HydrationStep::General,
            StepData::Currencies(_) => HydrationStep::Currencies,
            StepData::Instruments(_) => HydrationStep::Instruments,
            StepData::Synthetics(_) => HydrationStep::Synthetics,
            StepData::Orders(_) => HydrationStep::Orders,
            StepData::Positions(_) => HydrationStep::Positions,
        }
    }

    /// What the load reports: the backend's failure, or success.
    pub open spec fn result(self) -> Result<(), PersistenceError> {
        match self {
            StepData::General(loaded) => load_result(loaded),
            StepData::Currencies(loaded) => load_result(loaded),
            StepData::Instruments(loaded) => load_result(loaded),
            StepData::Synthetics(loaded) => load_result(loaded),
            StepData::Orders(loaded) => load_result(loaded),
            StepData::Positions(loaded) => load_result(loaded),
        }
    }

    /// What the step reports: the step that follows, or the failure with the
    /// step at which it came.
    pub open spec fn outcome(self) -> Result<Option<HydrationStep>, HydrationError> {
        match self.result() {
            Ok(()) => Ok(self.step().following()),
            Err(error) => Err(HydrationError { step: self.step(), error }),
        }
    }
}

/// A failed hydration: the step at which the backend failed, and how.
#[derive(Debug)]
pub struct HydrationError {
    pub step: HydrationStep,
    pub error: PersistenceError,
}

/// What the backend answered when it was shut down: first to the flush, then
/// to the close, which is made whatever the flush answered.
pub struct BackendShutdown {
    pub flushed: Result<(), PersistenceError>,
    pub closed: Result<(), PersistenceError>,
}

/// What a disposal reports: success without a backend, else the failure of
/// the flush, else that of the close, else success.
pub open spec fn shutdown_result(backend: Option<BackendShutdown>) -> Result<
    (),
    PersistenceError,
> {
    match backend {
        None => Ok(()),
        Some(shutdown) => if shutdown.flushed is Err {
            shutdown.flushed
        } else {
            shutdown.closed
        },
    }
}

/// What a flush reports: success without a backend, else the backend's
/// answer.
pub open spec fn flush_result(flushed: Option<Result<(), PersistenceError>>) -> Result<
    (),
    PersistenceError,
> {
    match flushed {
        None => Ok(()),
        Some(answer) => answer,
    }
}

/// The orders and positions that are still open.
#[derive(Clone, Copy, Debug, PartialEq, Eq, Structural)]
pub struct Residuals {
    pub open_orders: usize,
    pub open_positions: usize,
}

impl Residuals {
    /// Whether anything is still open.
    pub fn any(&self) -> (any: bool)
        ensures
            any == (self.open_orders > 0 || self.open_positions > 0),
    {
        self.open_orders > 0 || self.open_positions > 0
    }
}

/// What the cache holds.
pub struct CacheView {
    pub config: CacheConfig,
    pub phase: Phase,
    /// The categories hydrated so far.
    pub progress: Progress,
    pub index: IndexView,
    /// The general store: key to bytes.
    pub general: Map<Name, Seq<u8>>,
    pub market: TimeSeriesView,
    pub reference: ReferenceView,
    /// Client order id to order.
    pub orders: Map<Name, OrderAny>,
    /// Position id to position.
    pub positions: Map<Name, Position>,
}

impl CacheView {
    /// The cache as it is built: empty, with the given configuration.
    pub open spec fn initial(config: CacheConfig) -> CacheView {
        CacheView {
            config,
            phase: Phase::Uninitialized,
            progress: Progress::none(),
            index: IndexView::empty(),
            general: Map::empty(),
            market: TimeSeriesView::empty(
                config.tick_capacity as nat,
                config.bar_capacity as nat,
            ),
            reference: ReferenceView::empty(),
            orders: Map::empty(),
            positions: Map::empty(),
        }
    }

    /// The cache after a reset: the configuration, the phase and the
    /// progress of hydration stay, and so do the instruments unless the
    /// configuration drops them; all else is empty.
    pub open spec fn after_reset(self) -> CacheView {
        CacheView {
            config: self.config,
            phase: self.phase,
            progress: self.progress,
            index: IndexView::empty(),
            general: Map::empty(),
            market: TimeSeriesView::empty(
                self.config.tick_capacity as nat,
                self.config.bar_capacity as nat,
            ),
            reference: self.reference.cleared(self.config.drop_instruments_on_reset),
            orders: Map::empty(),
            positions: Map::empty(),
        }
    }

    /// The cache after a step of hydration took `data`: the category of the
    /// step holds what the load brought, a load that did not fail counts as
    /// progress, and a cache that has not been hydrated before becomes ready
    /// once every category is done.
    pub open spec fn after_step(self, data: StepData) -> CacheView {
        let loaded = match data {
            StepData::General(loaded) => CacheView {
                general: hydrated_blobs(self.general, loaded),
                ..self
            },
            StepData::Currencies(loaded) => CacheView {
                reference: ReferenceView {
                    currencies: hydrated(self.reference.currencies, loaded),
                    ..self.reference
                },
                ..self
            },
            StepData::Instruments(loaded) => CacheView {
                reference: ReferenceView {
                    instruments: hydrated(self.reference.instruments, loaded),
                    ..self.reference
                },
                ..self
            },
            StepData::Synthetics(loaded) => CacheView {
                reference: ReferenceView {
                    synthetics: hydrated(self.reference.synthetics, loaded),
                    ..self.reference
                },
                ..self
            },
            StepData::Orders(loaded) => CacheView {
                orders: hydrated(self.orders, loaded),
                ..self
            },
            StepData::Positions(loaded) => CacheView {
                positions: hydrated(self.positions, loaded),
                ..self
            },
        };
        loaded.booked(data.step(), data.result() is Ok)
    }

    /// The cache after the end of a step was booked: a step that did not
    /// fail counts as progress, and a cache that has not been hydrated
    /// before becomes ready once every category is done.
    pub open spec fn booked(self, step: HydrationStep, succeeded: bool) -> CacheView {
        let progress = if succeeded {
            self.progress.with(step)
        } else {
            self.progress
        };
        let phase = if self.phase == Phase::Uninitialized && progress.complete() {
            Phase::Ready
        } else {
            self.phase
        };
        CacheView { phase, progress, ..self }
    }
}

/// The cache. Its view is a [`CacheView`].
pub struct Cache {
    config: CacheConfig,
    phase: Phase,
    progress: Progress,
    index: CacheIndex,
    general: ScratchStore,
    market: TimeSeriesStore,
    reference: ReferenceDataStore,
    orders: StringHashMap<OrderAny>,
    positions: StringHashMap<Position>,
}

impl View for Cache {
    type V = CacheView;

    closed spec fn view(&self) -> CacheView {
        CacheView {
            config: self.config,
            phase: self.phase,
            progress: self.progress,
            index: self.index@,
            general: self.general@,
            market: self.market@,
            reference: self.reference@,
            orders: self.orders@,
            positions: self.positions@,
        }
    }
}

impl Default for Cache {
    fn default() -> (cache: Self)
        ensures
            cache.wf(),
            cache@ == CacheView::initial(CacheConfig::default_spec()),
    {
        Cache::new(CacheConfig::default())
    }
}

impl Cache {
    /// The index and the market data are well formed, and the series have
    /// the capacities of the configuration.
    pub closed spec fn wf(&self) -> bool {
        &&& self.index.wf()
        &&& self.market.wf()
        &&& self.market@.tick_capacity == self.config.tick_capacity
        &&& self.market@.bar_capacity == self.config.bar_capacity
    }

    /// In a well-formed cache the index is consistent and the capacities
    /// are those of the configuration.
    pub proof fn lemma_wf(self)
        requires
            self.wf(),
        ensures
            self@.index.consistent(),
            self@.market.tick_capacity == self@.config.tick_capacity,
            self@.market.bar_capacity == self@.config.bar_capacity,
    {
        self.index.lemma_consistent();
    }

    /// An empty cache with the given configuration.
    pub fn new(config: CacheConfig) -> (cache: Self)
        ensures
            cache.wf(),
            cache@ == CacheView::initial(config),
    {
        Cache {
            config,
            phase: Phase::Uninitialized,
            progress: Progress {
                general: false,
                currencies: false,
                instruments: false,
                synthetics: false,
                orders: false,
                positions: false,
            },
            index: CacheIndex::new(),
            general: ScratchStore::new(),
            market: TimeSeriesStore::new(config.tick_capacity, config.bar_capacity),
            reference: ReferenceDataStore::new(),
            orders: StringHashMap::new(),
            positions: StringHashMap::new(),
        }
    }

    /// Books the end of a step: a step that did not fail counts as
    /// progress, and the first time that every category is done the cache
    /// becomes ready.
    fn completed(&mut self, step: HydrationStep, result: Result<(), PersistenceError>) -> (r:
        Result<(), PersistenceError>)
        requires
            old(self).wf(),
        ensures
            final(self).wf(),
            r == result,
            final(self)@ == old(self)@.booked(step, result is Ok),
    {
        if result.is_ok() {
            self.progress.record(step);
        }
        if self.phase == Phase::Uninitialized && self.progress.is_complete() {
            self.phase = Phase::Ready;
        }
        result
    }

    /// Takes what a load of the general category brought: the loaded
    /// entries replace all that the general store held, nothing is held where
    /// no backend is configured, and a failed load changes nothing and is
    /// reported.
    pub fn cache_general(&mut self, loaded: Loaded<Vec<u8>>) -> (r: Result<(), PersistenceError>)
        requires
            old(self).wf(),
        ensures
            final(self).wf(),
            r == load_result(loaded),
            final(self)@ == old(self)@.after_step(StepData::General(loaded)),
    {
        let result = self.general.hydrate(loaded);
        self.completed(HydrationStep::General, result)
    }

    /// Takes what a load of the currencies brought, as
    /// [`Self::cache_general`] does for the general category.
    pub fn cache_currencies(&mut self, loaded: Loaded<Currency>) -> (r: Result<(), PersistenceError>)
        requires
            old(self).wf(),
        ensures
            final(self).wf(),
            r == load_result(loaded),
            final(self)@ == old(self)@.after_step(StepData::Currencies(loaded)),
    {
        let result = self.reference.hydrate_currencies(loaded);
        self.completed(HydrationStep::Currencies, result)
    }

    /// Takes what a load of the instruments brought, as
    /// [`Self::cache_general`] does for the general category.
    pub fn cache_instruments(&mut self, loaded: Loaded<InstrumentAny>) -> (r: Result<(), PersistenceError>)
        requires
            old(self).wf(),
        ensures
            final(self).wf(),
            r == load_result(loaded),
            final(self)@ == old(self)@.after_step(StepData::Instruments(loaded)),
    {
        let result = self.reference.hydrate_instruments(loaded);
        self.completed(HydrationStep::Instruments, result)
    }

    /// Takes what a load of the synthetic instruments brought, as
    /// [`Self::cache_general`] does for the general category.
    pub fn cache_synthetics(&mut self, loaded: Loaded<SyntheticInstrument>) -> (r: Result<(), PersistenceError>)
        requires
            old(self).wf(),
        ensures
            final(self).wf(),
            r == load_result(loaded),
            final(self)@ == old(self)@.after_step(StepData::Synthetics(loaded)),
    {
        let result = self.reference.hydrate_synthetics(loaded);
        self.completed(HydrationStep::Synthetics, result)
    }

    /// Takes what a load of the orders brought, as
    /// [`Self::cache_general`] does for the general category.
    pub fn cache_orders(&mut self, loaded: Loaded<OrderAny>) -> (r: Result<(), PersistenceError>)
        requires
            old(self).wf(),
        ensures
            final(self).wf(),
            r == load_result(loaded),
            final(self)@ == old(self)@.after_step(StepData::Orders(loaded)),
    {
        let result = install(&mut self.orders, loaded);
        self.completed(HydrationStep::Orders, result)
    }

    /// Takes what a load of the positions brought, as
    /// [`Self::cache_general`] does for the general category.
    pub fn cache_positions(&mut self, loaded: Loaded<Position>) -> (r: Result<(), PersistenceError>)
        requires
            old(self).wf(),
        ensures
            final(self).wf(),
            r == load_result(loaded),
            final(self)@ == old(self)@.after_step(StepData::Positions(loaded)),
    {
        let result = install(&mut self.positions, loaded);
        self.completed(HydrationStep::Positions, result)
    }

    /// Takes what one step of hydration loaded and says which step follows.
    /// The steps run from the general category to the positions. A failed
    /// load changes nothing and is reported with its step.
    pub fn hydrate_step(&mut self, data: StepData) -> (r: Result<
        Option<HydrationStep>,
        HydrationError,
    >)
        requires
            old(self).wf(),
        ensures
            final(self).wf(),
            r == data.outcome(),
            final(self)@ == old(self)@.after_step(data),
    {
        let (step, result) = match data {
            StepData::General(loaded) => (HydrationStep::General, self.cache_general(loaded)),
            StepData::Currencies(loaded) => (
                HydrationStep::Currencies,
                self.cache_currencies(loaded),
            ),
            StepData::Instruments(loaded) => (
                HydrationStep::Instruments,
                self.cache_instruments(loaded),
            ),
            StepData::Synthetics(loaded) => (
                HydrationStep::Synthetics,
                self.cache_synthetics(loaded),
            ),
            StepData::Orders(loaded) => (HydrationStep::Orders, self.cache_orders(loaded)),
            StepData::Positions(loaded) => (HydrationStep::Positions, self.cache_positions(loaded)),
        };
        match result {
            Ok(()) => Ok(step.next()),
            Err(error) => Err(HydrationError { step, error }),
        }
    }

    /// Counts the orders and positions that are still open: a check before
    /// shutdown that reports and decides nothing.
    pub fn check_residuals(&self) -> (residuals: Residuals)
        ensures
            residuals.open_orders == self@.index.orders_open.len(),
            residuals.open_positions == self@.index.positions_open.len(),
    {
        Residuals {
            open_orders: self.index.open_order_count(),
            open_positions: self.index.open_position_count(),
        }
    }

    /// Empties the index.
    pub fn clear_index(&mut self)
        requires
            old(self).wf(),
        ensures
            final(self).wf(),
            final(self)@ == (CacheView { index: IndexView::empty(), ..old(self)@ }),
    {
        self.index.clear();
    }

    /// Reset the cache.
    ///
    /// All stateful fields are reset to their initial value. The
    /// configuration stays, and so do the instruments unless the
    /// configuration drops them on reset.
    pub fn reset(&mut self)
        requires
            old(self).wf(),
        ensures
            final(self).wf(),
            final(self)@ == old(self)@.after_reset(),
    {
        self.general.clear();
        self.market.clear();
        self.reference.clear(self.config.drop_instruments_on_reset);
        self.orders.clear();
        self.positions.clear();
        self.clear_index();
    }

    /// Ends the life of the cache and reports what the shutdown of the
    /// backend answered: the failure of the flush, else that of the close.
    pub fn dispose(&mut self, backend: Option<BackendShutdown>) -> (r: Result<
        (),
        PersistenceError,
    >)
        requires
            old(self).wf(),
        ensures
            final(self).wf(),
            final(self)@ == (CacheView { phase: Phase::Disposed, ..old(self)@ }),
            r == shutdown_result(backend),
    {
        self.phase = Phase::Disposed;
        match backend {
            None => Ok(()),
            Some(shutdown) => match shutdown.flushed {
                Err(error) => Err(error),
                Ok(()) => shutdown.closed,
            },
        }
    }

    /// Reports what a flush of the backend answered. Without a backend there
    /// is nothing to flush.
    pub fn flush_db(&self, flushed: Option<Result<(), PersistenceError>>) -> (r: Result<
        (),
        PersistenceError,
    >)
        ensures
            r == flush_result(flushed),
    {
        match flushed {
            None => Ok(()),
            Some(answer) => answer,
        }
    }

    /// Writes `value` under `key` in the general store, in place of what the
    /// key held. An invalid key or an empty value is rejected, and then
    /// nothing changes.
    pub fn add(&mut self, key: &str, value: Vec<u8>) -> (r: Result<(), ValidationError>)
        requires
            old(self).wf(),
        ensures
            final(self).wf(),
            r == put_verdict(key@, value@),
            final(self)@ == (CacheView {
                general: after_put(old(self)@.general, key@, value@),
                ..old(self)@
            }),
    {
        self.general.put(key, value)
    }

    /// The bytes last written under `key` in the general store, or nothing
    /// where the key is unknown. Only an invalid key is an error.
    pub fn get(&self, key: &str) -> (r: Result<Option<&Vec<u8>>, ValidationError>)
        ensures
            found(r) == lookup(self@.general, key@),
    {
        self.general.get(key)
    }

    /// Appends a quote to the series of the instrument.
    pub fn add_quote(&mut self, instrument_id: &InstrumentId, quote: QuoteTick)
        requires
            old(self).wf(),
        ensures
            final(self).wf(),
            final(self)@ == (CacheView {
                market: old(self)@.market.with_quote(instrument_id@, quote),
                ..old(self)@
            }),
    {
        self.market.add_quote(instrument_id, quote);
    }

    /// Appends a trade to the series of the instrument.
    pub fn add_trade(&mut self, instrument_id: &InstrumentId, trade: TradeTick)
        requires
            old(self).wf(),
        ensures
            final(self).wf(),
            final(self)@ == (CacheView {
                market: old(self)@.market.with_trade(instrument_id@, trade),
                ..old(self)@
            }),
    {
        self.market.add_trade(instrument_id, trade);
    }

    /// Appends a bar to the series of its type.
    pub fn add_bar(&mut self, bar_type: &BarType, bar: Bar)
        requires
            old(self).wf(),
        ensures
            final(self).wf(),
            final(self)@ == (CacheView {
                market: old(self)@.market.with_bar(bar_type.key(), bar_type.side(), bar),
                ..old(self)@
            }),
    {
        self.market.add_bar(bar_type, bar);
    }

    /// The categories hydrated so far.
    pub fn progress(&self) -> (progress: Progress)
        ensures
            progress == self@.progress,
    {
        self.progress
    }

    /// The configuration.
    pub fn config(&self) -> (config: &CacheConfig)
        ensures
            *config == self@.config,
    {
        &self.config
    }

    /// Where the cache stands in its life.
    pub fn phase(&self) -> (phase: Phase)
        ensures
            phase == self@.phase,
    {
        self.phase
    }

    /// The index, for reading.
    pub fn index(&self) -> (index: &CacheIndex)
        requires
            self.wf(),
        ensures
            index.wf(),
            index@ == self@.index,
    {
        &self.index
    }

    /// The index, for one change. The cache stays well formed where the
    /// index does, and nothing but the index changes.
    pub fn index_mut(&mut self) -> (index: &mut CacheIndex)
        requires
            old(self).wf(),
        ensures
            index.wf(),
            index@ == old(self)@.index,
            final(self)@ == (CacheView { index: final(index)@, ..old(self)@ }),
            final(index).wf() ==> final(self).wf(),
    {
        &mut self.index
    }

    /// The market data, for reading.
    pub fn market(&self) -> (market: &TimeSeriesStore)
        requires
            self.wf(),
        ensures
            market.wf(),
            market@ == self@.market,
    {
        &self.market
    }

    /// The market data, for one change. The cache stays well formed where
    /// the market data does and keeps its capacities, and nothing but the
    /// market data changes.
    pub fn market_mut(&mut self) -> (market: &mut TimeSeriesStore)
        requires
            old(self).wf(),
        ensures
            market.wf(),
            market@ == old(self)@.market,
            final(self)@ == (CacheView { market: final(market)@, ..old(self)@ }),
            final(market).wf() && final(market)@.tick_capacity == old(self)@.market.tick_capacity
                && final(market)@.bar_capacity == old(self)@.market.bar_capacity
                ==> final(self).wf(),
    {
        &mut self.market
    }

    /// The reference data, for reading.
    pub fn reference(&self) -> (reference: &ReferenceDataStore)
        ensures
            reference@ == self@.reference,
    {
        &self.reference
    }

    /// The order with the given id, if it is held.
    pub fn order(&self, order_id: &ClientOrderId) -> (order: Option<&OrderAny>)
        ensures
            match order {
                Some(o) => self@.orders.contains_key(order_id@) && *o == self@.orders[order_id@],
                None => !self@.orders.contains_key(order_id@),
            },
    {
        self.orders.get(order_id.as_str())
    }

    /// The position with the given id, if it is held.
    pub fn position(&self, position_id: &PositionId) -> (position: Option<&Position>)
        ensures
            match position {
                Some(p) => self@.positions.contains_key(position_id@) && *p
                    == self@.positions[position_id@],
                None => !self@.positions.contains_key(position_id@),
            },
    {
        self.positions.get(position_id.as_str())
    }
}

/// The cache after hydration ran its six steps in order with no backend
/// configured.
pub open spec fn hydrated_without_backend(v: CacheView) -> CacheView {
    v.after_step(StepData::General(Loaded::NoBackend)).after_step(
        StepData::Currencies(Loaded::NoBackend),
    ).after_step(StepData::Instruments(Loaded::NoBackend)).after_step(
        StepData::Synthetics(Loaded::NoBackend),
    ).after_step(StepData::Orders(Loaded::NoBackend)).after_step(
        StepData::Positions(Loaded::NoBackend),
    )
}

/// With no backend configured every step of hydration succeeds, and after
/// the last the cache holds no reference data, no general entries, no orders
/// and no positions, and is ready if it was waiting for hydration.
pub proof fn lemma_hydration_without_backend(v: CacheView)
    ensures
        StepData::General(Loaded::NoBackend).outcome() is Ok,
        StepData::Currencies(Loaded::NoBackend).outcome() is Ok,
        StepData::Instruments(Loaded::NoBackend).outcome() is Ok,
        StepData::Synthetics(Loaded::NoBackend).outcome() is Ok,
        StepData::Orders(Loaded::NoBackend).outcome() is Ok,
        StepData::Positions(Loaded::NoBackend).outcome() is Ok,
        hydrated_without_backend(v).reference == ReferenceView::empty(),
        hydrated_without_backend(v).general == Map::<Name, Seq<u8>>::empty(),
        hydrated_without_backend(v).orders == Map::<Name, OrderAny>::empty(),
        hydrated_without_backend(v).positions == Map::<Name, Position>::empty(),
        hydrated_without_backend(v).progress.complete(),
        v.phase == Phase::Uninitialized ==> hydrated_without_backend(v).phase == Phase::Ready,
        hydrated_without_backend(v).config == v.config,
        hydrated_without_backend(v).index == v.index,
        hydrated_without_backend(v).market == v.market,
{
}

/// Disposal is the end: no step of hydration and no reset brings a disposed
/// cache back, and none takes a ready cache back to waiting.
pub proof fn lemma_phases_only_advance(v: CacheView, data: StepData)
    ensures
        v.phase == Phase::Disposed ==> v.after_step(data).phase == Phase::Disposed,
        v.phase == Phase::Ready ==> v.after_step(data).phase == Phase::Ready,
        v.after_reset().phase == v.phase,
{
}

/// A reset leaves the configuration as it was and empties the time series,
/// the general store and the index: no key is known to any of them.
pub proof fn lemma_reset_empties(v: CacheView)
    ensures
        v.after_reset().config == v.config,
        v.after_reset().index == IndexView::empty(),
        v.after_reset().general == Map::<Name, Seq<u8>>::empty(),
        v.after_reset().market == TimeSeriesView::empty(
            v.config.tick_capacity as nat,
            v.config.bar_capacity as nat,
        ),
        forall|key: Name|
            !(#[trigger] v.after_reset().general.contains_key(key))
                && !v.after_reset().market.quotes.contains_key(key)
                && !v.after_reset().market.trades.contains_key(key)
                && !v.after_reset().market.bars.contains_key(key)
                && !v.after_reset().market.books.contains_key(key)
                && !v.after_reset().market.bars_bid.contains_key(key)
                && !v.after_reset().market.bars_ask.contains_key(key),
{
}

} // verus!
