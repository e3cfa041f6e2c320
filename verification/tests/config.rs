use trading_cache::config::{CacheConfig, SerializationEncoding};

#[test]
fn default_config_has_documented_values() {
    let config = CacheConfig::default();
    assert_eq!(config.encoding, SerializationEncoding::MsgPack);
    assert!(!config.timestamps_as_iso8601);
    assert!(config.use_trader_prefix);
    assert!(!config.use_instance_id);
    assert!(!config.flush_on_start);
    assert!(config.drop_instruments_on_reset);
    assert_eq!(config.tick_capacity, 10_000);
    assert_eq!(config.bar_capacity, 10_000);
}
