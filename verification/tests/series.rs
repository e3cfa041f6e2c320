use nautilus_core::UnixNanos;
use nautilus_model::data::{Bar, BarType as ModelBarType, QuoteTick, TradeTick};
use nautilus_model::enums::{AggressorSide, BookType};
use nautilus_model::identifiers::{InstrumentId as ModelInstrumentId, TradeId};
use nautilus_model::orderbook::OrderBook;
use nautilus_model::types::{Price, Quantity};
use trading_cache::cache::Cache;
use trading_cache::config::{CacheConfig, SerializationEncoding};
use trading_cache::identifiers::InstrumentId;
use trading_cache::market::{BarType, PriceType, TimeSeriesStore};
use trading_cache::series::{Series, SeriesStore};
use trading_cache::validation::ValidationError;

fn trade_at(n: u64) -> TradeTick {
    TradeTick::new(
        ModelInstrumentId::from("AUDUSD.SIM"),
        Price::from("1.00000"),
        Quantity::from("100"),
        AggressorSide::Buyer,
        TradeId::new(n.to_string()),
        UnixNanos::from(n),
        UnixNanos::from(n),
    )
}

fn quote_at(n: u64) -> QuoteTick {
    QuoteTick::new(
        ModelInstrumentId::from("AUDUSD.SIM"),
        Price::from("1.00000"),
        Price::from("1.00010"),
        Quantity::from("100"),
        Quantity::from("200"),
        UnixNanos::from(n),
        UnixNanos::from(n),
    )
}

fn bar_at(bar_type: &str, n: u64) -> Bar {
    Bar::new(
        ModelBarType::from(bar_type),
        Price::from("1.00000"),
        Price::from("1.00030"),
        Price::from("0.99990"),
        Price::from("1.00010"),
        Quantity::from("1000"),
        UnixNanos::from(n),
        UnixNanos::from(n),
    )
}

fn config_with_capacity(tick_capacity: usize, bar_capacity: usize) -> CacheConfig {
    CacheConfig::new(
        SerializationEncoding::MsgPack,
        false,
        true,
        false,
        false,
        true,
        tick_capacity,
        bar_capacity,
    )
}

fn contents(series: &Series<u64>) -> Vec<u64> {
    let mut items = Vec::new();
    let mut i = 0;
    while let Some(item) = series.get(i) {
        items.push(*item);
        i += 1;
    }
    items
}

#[test]
fn fourth_trade_evicts_the_first() {
    let mut cache = Cache::new(config_with_capacity(3, 3));
    let instrument = InstrumentId::new("AUDUSD.SIM").unwrap();
    for n in 1..=4 {
        cache.add_trade(&instrument, trade_at(n));
    }
    let trades = cache.market().trades(&instrument).unwrap();
    assert_eq!(trades.len(), 3);
    assert_eq!(trades.get(0), Some(&trade_at(2)));
    assert_eq!(trades.get(1), Some(&trade_at(3)));
    assert_eq!(trades.get(2), Some(&trade_at(4)));
    assert_eq!(trades.get(3), None);
    assert_eq!(trades.latest(), Some(&trade_at(4)));
}

#[test]
fn series_keeps_the_last_min_of_n_and_capacity() {
    for capacity in 0..6_usize {
        for n in 0..12_u64 {
            let mut series: Series<u64> = Series::new(capacity);
            for item in 0..n {
                series.push(item);
            }
            let kept = std::cmp::min(n as usize, capacity);
            let expected: Vec<u64> = (n - kept as u64..n).collect();
            assert_eq!(series.len(), kept);
            assert_eq!(contents(&series), expected);
            assert_eq!(series.capacity(), capacity);
        }
    }
}

#[test]
fn series_below_capacity_keeps_everything_in_order() {
    let mut series: Series<u64> = Series::new(5);
    assert!(series.is_empty());
    assert_eq!(series.latest(), None);
    series.push(7);
    series.push(8);
    assert_eq!(contents(&series), vec![7, 8]);
    assert_eq!(series.latest(), Some(&8));
    assert!(!series.is_empty());
    series.clear();
    assert!(series.is_empty());
    assert_eq!(series.capacity(), 5);
}

#[test]
fn series_of_capacity_zero_keeps_nothing() {
    let mut series: Series<u64> = Series::new(0);
    series.push(1);
    series.push(2);
    assert_eq!(series.len(), 0);
    assert_eq!(series.get(0), None);
}

#[test]
fn keys_of_a_series_store_do_not_touch_each_other() {
    let mut store: SeriesStore<u64> = SeriesStore::new(2);
    store.push("a", 1);
    store.push("b", 10);
    store.push("a", 2);
    store.push("a", 3);
    assert_eq!(contents(store.get("a").unwrap()), vec![2, 3]);
    assert_eq!(contents(store.get("b").unwrap()), vec![10]);
    assert!(store.get("c").is_none());
    store.clear();
    assert!(store.get("a").is_none());
}

#[test]
fn quotes_are_bounded_by_the_tick_capacity() {
    let mut store = TimeSeriesStore::new(2, 10);
    let instrument = InstrumentId::new("AUDUSD.SIM").unwrap();
    let other = InstrumentId::new("EURUSD.SIM").unwrap();
    assert!(store.quotes(&instrument).is_none());
    for n in 1..=5 {
        store.add_quote(&instrument, quote_at(n));
    }
    store.add_quote(&other, quote_at(9));
    let quotes = store.quotes(&instrument).unwrap();
    assert_eq!(quotes.len(), 2);
    assert_eq!(quotes.get(0), Some(&quote_at(4)));
    assert_eq!(quotes.get(1), Some(&quote_at(5)));
    assert_eq!(store.quotes(&other).unwrap().len(), 1);
    assert!(store.trades(&instrument).is_none());
}

#[test]
fn bars_are_bounded_by_the_bar_capacity() {
    let mut cache = Cache::new(config_with_capacity(10, 2));
    let name = "AUDUSD.SIM-1-MINUTE-LAST-EXTERNAL";
    let bar_type = BarType::new(name, PriceType::Last).unwrap();
    for n in 1..=3 {
        cache.add_bar(&bar_type, bar_at(name, n));
    }
    let bars = cache.market().bars(&bar_type).unwrap();
    assert_eq!(bars.len(), 2);
    assert_eq!(bars.get(0), Some(&bar_at(name, 2)));
    assert_eq!(bars.get(1), Some(&bar_at(name, 3)));
    assert_eq!(cache.market().latest_bid_bar(&bar_type), None);
    assert_eq!(cache.market().latest_ask_bar(&bar_type), None);
}

#[test]
fn latest_bid_and_ask_bars_are_replaced_by_each_new_bar() {
    let mut store = TimeSeriesStore::new(10, 1);
    let bid_name = "AUDUSD.SIM-1-MINUTE-BID-EXTERNAL";
    let ask_name = "AUDUSD.SIM-1-MINUTE-ASK-EXTERNAL";
    let bid = BarType::new(bid_name, PriceType::Bid).unwrap();
    let ask = BarType::new(ask_name, PriceType::Ask).unwrap();
    assert_eq!(bid.price_type(), PriceType::Bid);
    assert_eq!(bid.as_str(), bid_name);

    store.add_bar(&bid, bar_at(bid_name, 1));
    assert_eq!(store.latest_bid_bar(&bid), Some(&bar_at(bid_name, 1)));
    assert_eq!(store.latest_ask_bar(&bid), None);
    assert_eq!(store.latest_ask_bar(&ask), None);

    store.add_bar(&bid, bar_at(bid_name, 2));
    store.add_bar(&ask, bar_at(ask_name, 3));
    assert_eq!(store.latest_bid_bar(&bid), Some(&bar_at(bid_name, 2)));
    assert_eq!(store.latest_ask_bar(&ask), Some(&bar_at(ask_name, 3)));
    assert_eq!(store.latest_bid_bar(&ask), None);
    assert_eq!(store.bars(&bid).unwrap().len(), 1);
}

#[test]
fn bar_type_needs_a_valid_string() {
    assert_eq!(
        BarType::new("", PriceType::Bid).err(),
        Some(ValidationError::InvalidIdentifier)
    );
}

#[test]
fn order_book_slot_is_replaced_wholesale_and_updated_in_place() {
    let mut store = TimeSeriesStore::new(10, 10);
    let instrument = InstrumentId::new("AUDUSD.SIM").unwrap();
    let model_id = ModelInstrumentId::from("AUDUSD.SIM");
    assert!(store.get_book(&instrument).is_none());
    assert!(store.book_mut(&instrument).is_none());

    store.apply_book_snapshot(&instrument, OrderBook::new(model_id, BookType::L2_MBP));
    assert_eq!(store.get_book(&instrument).unwrap().book_type, BookType::L2_MBP);

    store.book_mut(&instrument).unwrap().sequence = 42;
    assert_eq!(store.get_book(&instrument).unwrap().sequence, 42);

    store.apply_book_snapshot(&instrument, OrderBook::new(model_id, BookType::L3_MBO));
    let book = store.get_book(&instrument).unwrap();
    assert_eq!(book.book_type, BookType::L3_MBO);
    assert_eq!(book.sequence, 0);

    store.clear();
    assert!(store.get_book(&instrument).is_none());
}

#[test]
fn market_can_be_changed_through_the_cache() {
    let mut cache = Cache::new(config_with_capacity(2, 2));
    let instrument = InstrumentId::new("AUDUSD.SIM").unwrap();
    cache.market_mut().apply_book_snapshot(
        &instrument,
        OrderBook::new(ModelInstrumentId::from("AUDUSD.SIM"), BookType::L1_MBP),
    );
    cache.add_quote(&instrument, quote_at(1));
    assert!(cache.market().get_book(&instrument).is_some());
    assert_eq!(cache.market().quotes(&instrument).unwrap().len(), 1);
}
