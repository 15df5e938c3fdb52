//! The settings record, the store, and the read-modify-write handlers.

use lizard::config::{ConfigError, ConfigRecord, ConfigStore};
use lizard::menu::{apply_message_change, apply_minutes_change, apply_title_change};

fn record(title: &str, message: &str, minutes: u64) -> ConfigRecord {
    ConfigRecord { title: title.to_string(), message: message.to_string(), minutes }
}

#[test]
fn default_record_values() {
    let d = ConfigRecord::default();
    assert_eq!(d.title, "Eyes break");
    assert_eq!(d.message, "Time to take a break!");
    assert_eq!(d.minutes, 20);
}

#[test]
fn load_missing_returns_default() {
    let store = ConfigStore::absent();
    let loaded = store.load().expect("missing file must load the default");
    assert_eq!(loaded.title, "Eyes break");
    assert_eq!(loaded.message, "Time to take a break!");
    assert_eq!(loaded.minutes, 20);
}

#[test]
fn load_returns_persisted_record() {
    let store = ConfigStore::with_record(record("Blink", "Look away", 15));
    let loaded = store.load().expect("a valid record must load");
    assert_eq!(loaded.title, "Blink");
    assert_eq!(loaded.message, "Look away");
    assert_eq!(loaded.minutes, 15);
}

#[test]
fn load_unreadable_is_corrupt() {
    let store = ConfigStore::unreadable();
    assert_eq!(store.load().unwrap_err(), ConfigError::Corrupt);
}

#[test]
fn store_then_load_round_trip() {
    let mut store = ConfigStore::absent();
    store.store(record("T", "M", 3));
    let loaded = store.load().expect("a stored record must load");
    assert_eq!(loaded.title, "T");
    assert_eq!(loaded.message, "M");
    assert_eq!(loaded.minutes, 3);
}

#[test]
fn from_parts_accepts_one_minute() {
    let rec = ConfigRecord::from_parts("t".to_string(), "m".to_string(), 1).unwrap();
    assert_eq!(rec.minutes, 1);
    assert_eq!(rec.title, "t");
    assert_eq!(rec.message, "m");
}

#[test]
fn from_parts_rejects_zero_minutes() {
    let r = ConfigRecord::from_parts("t".to_string(), "m".to_string(), 0);
    assert_eq!(r.unwrap_err(), ConfigError::Corrupt);
}

#[test]
fn minutes_change_preserves_title() {
    // Read-modify-write: title "A" with minutes 5; setting minutes to 10
    // afterwards leaves title == "A".
    let mut store = ConfigStore::with_record(record("A", "m", 5));
    apply_minutes_change(&mut store, 10).expect("update must succeed");
    let loaded = store.load().expect("a valid record must load");
    assert_eq!(loaded.title, "A");
    assert_eq!(loaded.message, "m");
    assert_eq!(loaded.minutes, 10);
}

#[test]
fn title_change_preserves_interval_and_message() {
    let mut store = ConfigStore::with_record(record("old", "body", 30));
    apply_title_change(&mut store, "new".to_string()).expect("update must succeed");
    let loaded = store.load().expect("a valid record must load");
    assert_eq!(loaded.title, "new");
    assert_eq!(loaded.message, "body");
    assert_eq!(loaded.minutes, 30);
}

#[test]
fn message_change_preserves_interval_and_title() {
    let mut store = ConfigStore::with_record(record("keep", "old body", 7));
    apply_message_change(&mut store, "new body".to_string()).expect("update must succeed");
    let loaded = store.load().expect("a valid record must load");
    assert_eq!(loaded.title, "keep");
    assert_eq!(loaded.message, "new body");
    assert_eq!(loaded.minutes, 7);
}

#[test]
fn interleaved_edits_keep_each_other() {
    // Edits through different menu entries must not revert one another.
    let mut store = ConfigStore::absent();
    apply_title_change(&mut store, "Stretch".to_string()).unwrap();
    apply_minutes_change(&mut store, 45).unwrap();
    apply_message_change(&mut store, "Stand up".to_string()).unwrap();
    let loaded = store.load().unwrap();
    assert_eq!(loaded.title, "Stretch");
    assert_eq!(loaded.minutes, 45);
    assert_eq!(loaded.message, "Stand up");
}

#[test]
fn handler_on_unreadable_store_fails_and_keeps_state() {
    let mut store = ConfigStore::unreadable();
    let r = apply_minutes_change(&mut store, 10);
    assert_eq!(r.unwrap_err(), ConfigError::Corrupt);
    assert_eq!(store.load().unwrap_err(), ConfigError::Corrupt);
}
