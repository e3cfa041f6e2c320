//! An in-process, multi-index state cache for a trading engine.
//!
//! The cache is the one owner of the engine's working state:
//!
//! - [`scratch`]: byte blobs under string keys, for any user of the cache;
//! - [`market`]: bounded series of quotes, trades and bars, built on
//!   [`series`], and the latest order book and bid and ask bar of each key;
//! - [`reference`]: currencies, instruments and synthetic instruments;
//! - [`index`]: the relations between orders, positions, venues, accounts,
//!   strategies, execution algorithms, instruments and clients, with the
//!   model of its states in [`index_model`];
//! - [`cache`]: the whole, with its hydration, reset and disposal.
//!
//! The cache never performs input or output. A durable backend is driven by
//! the caller, who hands the cache what the backend answered (see
//! [`persistence`]).
//!
//! Every function states what it returns and changes over a mathematical
//! view of the data, and every such statement is proved. The exceptions are
//! the two checks in [`validation`] that call `nautilus_core`, whose
//! contracts are taken on trust, and the value types of `nautilus_model` in
//! [`model`] and of `nautilus_core` in [`messages`], of which nothing is
//! claimed.

pub mod cache;
pub mod config;
pub mod identifiers;
pub mod index;
pub mod index_model;
pub mod keyed;
pub mod market;
pub mod messages;
pub mod model;
pub mod persistence;
pub mod reference;
pub mod relation;
pub mod scratch;
pub mod series;
pub mod validation;
