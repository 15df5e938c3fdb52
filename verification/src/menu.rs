//! The tray menu's configuration handlers.
//!
//! Every activation follows one discipline: load the current record from
//! the store, replace only the field the menu entry targets, and store the
//! whole record back. A handler never builds a fresh record from defaults
//! plus its own field — that would silently revert concurrent edits made
//! through other menu entries. The contracts below pin the discipline
//! down: whatever the store held, the fields a handler does not target
//! come out unchanged.

use vstd::prelude::*;

use crate::config::ConfigError;
use crate::config::ConfigStore;
use crate::config::PersistedState;
use crate::config::default_message;
use crate::config::default_title;

verus! {

/// Replaces only the reminder interval, used by the interval-preset menu
/// entries and by the config editor's minutes field. Title and body keep
/// their latest stored values; on a first run they become the defaults the
/// load supplied. `Err` exactly when the persisted data cannot be read.
pub fn apply_minutes_change(store: &mut ConfigStore, minutes: u64) -> (r: Result<(), ConfigError>)
    requires
        old(store).wf(),
        minutes >= 1,
    ensures
        final(store).wf(),
        old(store)@ matches PersistedState::Valid(rec) ==> (final(store)@ matches
            PersistedState::Valid(u) && r is Ok && u.minutes == minutes && u.title == rec.title
            && u.message == rec.message),
        old(store)@ is Absent ==> (final(store)@ matches PersistedState::Valid(u) && r is Ok
            && u.minutes == minutes && u.title@ == default_title() && u.message@
            == default_message()),
        old(store)@ is Unreadable ==> (r == Err::<(), ConfigError>(ConfigError::Corrupt)
            && final(store)@ is Unreadable),
{
    match store.load() {
        Ok(current) => {
            let updated = current.with_minutes(minutes);
            store.store(updated);
            Ok(())
        },
        Err(e) => Err(e),
    }
}

/// Replaces only the notification title, used by the config editor's
/// title field. Body and interval keep their latest stored values.
/// `Err` exactly when the persisted data cannot be read.
pub fn apply_title_change(store: &mut ConfigStore, title: String) -> (r: Result<(), ConfigError>)
    requires
        old(store).wf(),
    ensures
        final(store).wf(),
        old(store)@ matches PersistedState::Valid(rec) ==> (final(store)@ matches
            PersistedState::Valid(u) && r is Ok && u.title == title && u.message == rec.message
            && u.minutes == rec.minutes),
        old(store)@ is Absent ==> (final(store)@ matches PersistedState::Valid(u) && r is Ok
            && u.title == title && u.message@ == default_message() && u.minutes == 20),
        old(store)@ is Unreadable ==> (r == Err::<(), ConfigError>(ConfigError::Corrupt)
            && final(store)@ is Unreadable),
{
    match store.load() {
        Ok(current) => {
            let updated = current.with_title(title);
            store.store(updated);
            Ok(())
        },
        Err(e) => Err(e),
    }
}

/// Replaces only the notification body, used by the config editor's
/// message field. Title and interval keep their latest stored values.
/// `Err` exactly when the persisted data cannot be read.
pub fn apply_message_change(store: &mut ConfigStore, message: String) -> (r: Result<
    (),
    ConfigError,
>)
    requires
        old(store).wf(),
    ensures
        final(store).wf(),
        old(store)@ matches PersistedState::Valid(rec) ==> (final(store)@ matches
            PersistedState::Valid(u) && r is Ok && u.message == message && u.title == rec.title
            && u.minutes == rec.minutes),
        old(store)@ is Absent ==> (final(store)@ matches PersistedState::Valid(u) && r is Ok
            && u.message == message && u.title@ == default_title() && u.minutes == 20),
        old(store)@ is Unreadable ==> (r == Err::<(), ConfigError>(ConfigError::Corrupt)
            && final(store)@ is Unreadable),
{
    match store.load() {
        Ok(current) => {
            let updated = current.with_message(message);
            store.store(updated);
            Ok(())
        },
        Err(e) => Err(e),
    }
}

} // verus!
