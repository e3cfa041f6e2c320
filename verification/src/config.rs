//! Configuration of a cache instance.

use vstd::prelude::*;

verus! {

/// The encoding that a persistence backend uses on the wire and in storage.
/// The cache carries it and never interprets it.
#[derive(Clone, Copy, Debug, PartialEq, Eq, Structural)]
pub enum SerializationEncoding {
    MsgPack,
    Json,
}

/// The number of quotes, trades or bars kept per key unless configured otherwise.
pub const DEFAULT_CAPACITY: usize = 10_000;

/// The options of a cache. They are set at construction and survive a reset.
#[derive(Clone, Copy, Debug, PartialEq, Eq, Structural)]
pub struct CacheConfig {
    /// Encoding used by the backend.
    pub encoding: SerializationEncoding,
    /// Whether persisted timestamps are written as ISO 8601 strings.
    pub timestamps_as_iso8601: bool,
    /// Whether backend keys carry the trader prefix.
    pub use_trader_prefix: bool,
    /// Whether backend keys carry the instance id.
    pub use_instance_id: bool,
    /// Whether the backend is flushed before hydration.
    pub flush_on_start: bool,
    /// Whether a reset also drops the instruments.
    pub drop_instruments_on_reset: bool,
    /// The ceiling of every quote and trade series.
    pub tick_capacity: usize,
    /// The ceiling of every bar series.
    pub bar_capacity: usize,
}

impl CacheConfig {
    /// The configuration with default options: MsgPack, trader prefix on,
    /// instruments dropped on reset, ten thousand items per series.
    pub open spec fn default_spec() -> CacheConfig {
        CacheConfig {
            encoding: SerializationEncoding::MsgPack,
            timestamps_as_iso8601: false,
            use_trader_prefix: true,
            use_instance_id: false,
            flush_on_start: false,
            drop_instruments_on_reset: true,
            tick_capacity: DEFAULT_CAPACITY,
            bar_capacity: DEFAULT_CAPACITY,
        }
    }

    /// Builds a configuration from its eight options, each stored as given.
    pub fn new(
        encoding: SerializationEncoding,
        timestamps_as_iso8601: bool,
        use_trader_prefix: bool,
        use_instance_id: bool,
        flush_on_start: bool,
        drop_instruments_on_reset: bool,
        tick_capacity: usize,
        bar_capacity: usize,
    ) -> (config: Self)
        ensures
            config == (CacheConfig {
                encoding,
                timestamps_as_iso8601,
                use_trader_prefix,
                use_instance_id,
                flush_on_start,
                drop_instruments_on_reset,
                tick_capacity,
                bar_capacity,
            }),
    {
        Self {
            encoding,
            timestamps_as_iso8601,
            use_trader_prefix,
            use_instance_id,
            flush_on_start,
            drop_instruments_on_reset,
            tick_capacity,
            bar_capacity,
        }
    }
}

impl Default for CacheConfig {
    fn default() -> (config: Self)
        ensures
            config == CacheConfig::default_spec(),
    {
        Self::new(
            SerializationEncoding::MsgPack,
            false,
            true,
            false,
            false,
            true,
            DEFAULT_CAPACITY,
            DEFAULT_CAPACITY,
        )
    }
}

} // verus!
