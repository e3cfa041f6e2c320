use trading_cache::cache::Cache;
use trading_cache::config::CacheConfig;
use trading_cache::scratch::ScratchStore;
use trading_cache::validation::{validate_identifier, validate_key, validate_value, ValidationError};

#[test]
fn test_general_when_no_value() {
    let cache = Cache::default();
    let result = cache.get("A").unwrap();
    assert_eq!(result, None);
}

#[test]
fn test_general_when_value() {
    let mut cache = Cache::default();

    let key = "A";
    let value = vec![0_u8];
    cache.add(key, value.clone()).unwrap();

    let result = cache.get(key).unwrap();
    assert_eq!(result, Some(&value));
}

#[test]
fn put_then_get_then_rejected_put_keeps_value() {
    let mut cache = Cache::new(CacheConfig::default());
    cache.add("cfg", vec![1, 2, 3]).unwrap();
    assert_eq!(cache.get("cfg").unwrap(), Some(&vec![1_u8, 2, 3]));

    assert_eq!(cache.add("cfg", vec![]), Err(ValidationError::EmptyValue));
    assert_eq!(cache.get("cfg").unwrap(), Some(&vec![1_u8, 2, 3]));
}

#[test]
fn last_write_wins() {
    let mut store = ScratchStore::new();
    store.put("k", vec![1]).unwrap();
    store.put("k", vec![2, 2]).unwrap();
    assert_eq!(store.get("k").unwrap(), Some(&vec![2_u8, 2]));
    assert_eq!(store.len(), 1);
    store.put("other", vec![9]).unwrap();
    assert_eq!(store.len(), 2);
    assert_eq!(store.get("k").unwrap(), Some(&vec![2_u8, 2]));
}

#[test]
fn empty_key_is_rejected_and_changes_nothing() {
    let mut store = ScratchStore::new();
    store.put("k", vec![1]).unwrap();
    assert_eq!(store.put("", vec![5]), Err(ValidationError::InvalidKey));
    assert_eq!(store.len(), 1);
    assert_eq!(store.get("k").unwrap(), Some(&vec![1_u8]));
}

#[test]
fn key_is_tested_before_value() {
    let mut store = ScratchStore::new();
    assert_eq!(store.put("", vec![]), Err(ValidationError::InvalidKey));
    assert_eq!(store.len(), 0);
}

#[test]
fn blank_and_non_ascii_keys_are_rejected() {
    let mut store = ScratchStore::new();
    assert_eq!(store.put("   ", vec![1]), Err(ValidationError::InvalidKey));
    assert_eq!(store.put("\t\n", vec![1]), Err(ValidationError::InvalidKey));
    assert_eq!(store.put("caf\u{e9}", vec![1]), Err(ValidationError::InvalidKey));
    assert_eq!(store.len(), 0);
    assert_eq!(store.put(" a ", vec![1]), Ok(()));
    assert_eq!(store.get(" a ").unwrap(), Some(&vec![1_u8]));
}

#[test]
fn get_with_invalid_key_is_an_error() {
    let store = ScratchStore::new();
    assert_eq!(store.get(""), Err(ValidationError::InvalidKey));
    assert_eq!(store.get(" "), Err(ValidationError::InvalidKey));
}

#[test]
fn get_on_unknown_key_is_absent() {
    let mut store = ScratchStore::new();
    store.put("known", vec![1]).unwrap();
    assert_eq!(store.get("unknown"), Ok(None));
}

#[test]
fn clear_empties_the_store() {
    let mut store = ScratchStore::new();
    store.put("a", vec![1]).unwrap();
    store.put("b", vec![2]).unwrap();
    store.clear();
    assert_eq!(store.len(), 0);
    assert_eq!(store.get("a"), Ok(None));
}

#[test]
fn validators_name_what_was_wrong() {
    assert_eq!(validate_key("key"), Ok(()));
    assert_eq!(validate_key(""), Err(ValidationError::InvalidKey));
    assert_eq!(validate_value(&vec![0]), Ok(()));
    assert_eq!(validate_value(&vec![]), Err(ValidationError::EmptyValue));
    assert_eq!(validate_identifier("O-1"), Ok(()));
    assert_eq!(validate_identifier(" "), Err(ValidationError::InvalidIdentifier));
    assert_eq!(validate_identifier("\u{a0}"), Err(ValidationError::InvalidIdentifier));
}

#[test]
fn validity_follows_ascii_and_whitespace_exactly() {
    // The six ASCII whitespace characters, alone or together, are blank.
    for blank in ["\t", "\n", "\u{b}", "\u{c}", "\r", " ", " \t\n\u{b}\u{c}\r "] {
        assert_eq!(validate_key(blank), Err(ValidationError::InvalidKey), "{blank:?}");
    }
    // Their neighbours and the ends of the ASCII range are not.
    for valid in ["\u{0}", "\u{8}", "\u{e}", "\u{1c}", "\u{1f}", "!", "\u{7f}", " x", "\tx\n"] {
        assert_eq!(validate_key(valid), Ok(()), "{valid:?}");
    }
    // One character outside ASCII spoils any string.
    for foreign in ["\u{80}", "\u{85}", "\u{a0}", "a\u{2003}", "\u{e9}x", "x\u{1f600}"] {
        assert_eq!(validate_key(foreign), Err(ValidationError::InvalidKey), "{foreign:?}");
    }
}
