//! The reference data of the cache: currencies, instruments and synthetic
//! instruments. It is filled from the backend at start-up and read after.

use crate::identifiers::{CurrencyCode, InstrumentId};
use crate::index_model::Name;
use crate::persistence::{hydrated, install, load_result, Loaded, PersistenceError};
use nautilus_model::instruments::{InstrumentAny, SyntheticInstrument};
use nautilus_model::types::Currency;
use vstd::hash_map::StringHashMap;
use vstd::prelude::*;

verus! {

/// What the reference data store holds.
pub struct ReferenceView {
    /// Currency code to currency.
    pub currencies: Map<Name, Currency>,
    /// Instrument id to instrument.
    pub instruments: Map<Name, InstrumentAny>,
    /// Instrument id to synthetic instrument.
    pub synthetics: Map<Name, SyntheticInstrument>,
}

impl ReferenceView {
    /// The store that holds nothing.
    pub open spec fn empty() -> ReferenceView {
        ReferenceView {
            currencies: Map::empty(),
            instruments: Map::empty(),
            synthetics: Map::empty(),
        }
    }

    /// The store after a clearing that drops the instruments only where
    /// `drop_instruments` says so.
    pub open spec fn cleared(self, drop_instruments: bool) -> ReferenceView {
        ReferenceView {
            currencies: Map::empty(),
            instruments: if drop_instruments {
                Map::empty()
            } else {
                self.instruments
            },
            synthetics: Map::empty(),
        }
    }
}

/// The reference data store. Its view is a [`ReferenceView`].
pub struct ReferenceDataStore {
    currencies: StringHashMap<Currency>,
    instruments: StringHashMap<InstrumentAny>,
    synthetics: StringHashMap<SyntheticInstrument>,
}

impl View for ReferenceDataStore {
    type V = ReferenceView;

    closed spec fn view(&self) -> ReferenceView {
        ReferenceView {
            currencies: self.currencies@,
            instruments: self.instruments@,
            synthetics: self.synthetics@,
        }
    }
}

impl ReferenceDataStore {
    /// The store that holds nothing.
    pub fn new() -> (store: Self)
        ensures
            store@ == ReferenceView::empty(),
    {
        ReferenceDataStore {
            currencies: StringHashMap::new(),
            instruments: StringHashMap::new(),
            synthetics: StringHashMap::new(),
        }
    }

    /// Takes what a load of the currencies brought: they replace all the
    /// currencies held, nothing is held where no backend is configured, and
    /// a failed load changes nothing and is reported.
    pub fn hydrate_currencies(&mut self, loaded: Loaded<Currency>) -> (r: Result<
        (),
        PersistenceError,
    >)
        ensures
            r == load_result(loaded),
            final(self)@ == (ReferenceView {
                currencies: hydrated(old(self)@.currencies, loaded),
                ..old(self)@
            }),
    {
        install(&mut self.currencies, loaded)
    }

    /// Takes what a load of the instruments brought, as
    /// [`Self::hydrate_currencies`] does for currencies.
    pub fn hydrate_instruments(&mut self, loaded: Loaded<InstrumentAny>) -> (r: Result<
        (),
        PersistenceError,
    >)
        ensures
            r == load_result(loaded),
            final(self)@ == (ReferenceView {
                instruments: hydrated(old(self)@.instruments, loaded),
                ..old(self)@
            }),
    {
        install(&mut self.instruments, loaded)
    }

    /// Takes what a load of the synthetic instruments brought, as
    /// [`Self::hydrate_currencies`] does for currencies.
    pub fn hydrate_synthetics(&mut self, loaded: Loaded<SyntheticInstrument>) -> (r: Result<
        (),
        PersistenceError,
    >)
        ensures
            r == load_result(loaded),
            final(self)@ == (ReferenceView {
                synthetics: hydrated(old(self)@.synthetics, loaded),
                ..old(self)@
            }),
    {
        install(&mut self.synthetics, loaded)
    }

    /// The currency with the given code, if it is held.
    pub fn currency(&self, code: &CurrencyCode) -> (currency: Option<&Currency>)
        ensures
            match currency {
                Some(c) => self@.currencies.contains_key(code@) && *c == self@.currencies[code@],
                None => !self@.currencies.contains_key(code@),
            },
    {
        self.currencies.get(code.as_str())
    }

    /// The instrument with the given id, if it is held.
    pub fn instrument(&self, instrument_id: &InstrumentId) -> (instrument: Option<&InstrumentAny>)
        ensures
            match instrument {
                Some(i) => self@.instruments.contains_key(instrument_id@) && *i
                    == self@.instruments[instrument_id@],
                None => !self@.instruments.contains_key(instrument_id@),
            },
    {
        self.instruments.get(instrument_id.as_str())
    }

    /// The synthetic instrument with the given id, if it is held.
    pub fn synthetic(&self, instrument_id: &InstrumentId) -> (synthetic: Option<
        &SyntheticInstrument,
    >)
        ensures
            match synthetic {
                Some(s) => self@.synthetics.contains_key(instrument_id@) && *s
                    == self@.synthetics[instrument_id@],
                None => !self@.synthetics.contains_key(instrument_id@),
            },
    {
        self.synthetics.get(instrument_id.as_str())
    }

    /// Drops the currencies and the synthetic instruments, and the
    /// instruments too where `drop_instruments` says so.
    pub fn clear(&mut self, drop_instruments: bool)
        ensures
            final(self)@ == old(self)@.cleared(drop_instruments),
    {
        self.currencies.clear();
        self.synthetics.clear();
        if drop_instruments {
            self.instruments.clear();
        }
    }
}

} // verus!
