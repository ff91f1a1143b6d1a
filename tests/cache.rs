use serde_json::Value;
use settings_store::{Cache, DEFAULT_TTL_SECONDS};

#[test]
fn value_is_read_back_at_once() {
    let mut c = Cache::new(DEFAULT_TTL_SECONDS);
    c.set_at("k".to_string(), Value::from(7), 1_000);
    assert_eq!(c.get_at("k", 1_000), Some(&Value::from(7)));
}

#[test]
fn value_is_read_until_the_window_closes() {
    let mut c = Cache::new(300);
    c.set_at("k".to_string(), Value::from("v"), 10_000);
    assert_eq!(c.get_at("k", 10_000 + 299_999), Some(&Value::from("v")));
    assert_eq!(c.get_at("k", 10_000 + 300_000), None);
    assert_eq!(c.get_at("k", 10_000 + 900_000), None);
}

#[test]
fn stale_entry_comes_back_when_rewritten() {
    let mut c = Cache::new(300);
    c.set_at("k".to_string(), Value::from(1), 0);
    assert_eq!(c.get_at("k", 400_000), None);
    c.set_at("k".to_string(), Value::from(2), 400_000);
    assert_eq!(c.get_at("k", 400_001), Some(&Value::from(2)));
}

#[test]
fn clock_going_backwards_counts_as_fresh() {
    let mut c = Cache::new(300);
    c.set_at("k".to_string(), Value::Bool(true), 50_000);
    assert_eq!(c.get_at("k", 10_000), Some(&Value::Bool(true)));
}

#[test]
fn missing_key_reads_nothing() {
    let mut c = Cache::new(300);
    c.set_at("a".to_string(), Value::Null, 0);
    assert_eq!(c.get_at("b", 0), None);
}

#[test]
fn keys_are_kept_apart() {
    let mut c = Cache::new(300);
    c.set_at("a".to_string(), Value::from(1), 0);
    c.set_at("b".to_string(), Value::from(2), 0);
    c.set_at("a".to_string(), Value::from(3), 5);
    assert_eq!(c.get_at("a", 10), Some(&Value::from(3)));
    assert_eq!(c.get_at("b", 10), Some(&Value::from(2)));
}

#[test]
fn zero_window_reads_nothing() {
    let mut c = Cache::new(0);
    c.set_at("k".to_string(), Value::from(1), 0);
    assert_eq!(c.get_at("k", 0), None);
}

#[test]
fn clear_empties_fresh_and_stale_entries() {
    let mut c = Cache::new(300);
    c.set_at("old".to_string(), Value::from(1), 0);
    c.set_at("new".to_string(), Value::from(2), 1_000_000);
    c.clear();
    assert_eq!(c.get_at("old", 1_000_000), None);
    assert_eq!(c.get_at("new", 1_000_000), None);
    c.set_at("new".to_string(), Value::from(3), 1_000_000);
    assert_eq!(c.get_at("new", 1_000_000), Some(&Value::from(3)));
}

#[test]
fn wall_clock_set_then_get() {
    let mut c = Cache::new(DEFAULT_TTL_SECONDS);
    c.set("k".to_string(), Value::from("now"));
    assert_eq!(c.get("k"), Some(&Value::from("now")));
    assert_eq!(c.get("other"), None);
    c.clear();
    assert_eq!(c.get("k"), None);
}
