//! The user-adjustable settings record and the store that persists it.
//!
//! The record carries the reminder interval and the notification text.
//! Every change goes through a full-record replace that leaves the fields
//! not targeted by the change untouched, so edits made through one menu
//! entry never revert edits made through another.

use vstd::prelude::*;
use vstd::string::StringExecFns;

verus! {

/// Interval used when no record has been persisted yet, in minutes.
pub const DEFAULT_MINUTES: u64 = 20;

/// View of the default notification title.
pub open spec fn default_title() -> Seq<char> {
    "Eyes break"@
}

/// View of the default notification body.
pub open spec fn default_message() -> Seq<char> {
    "Time to take a break!"@
}

/// Error raised by the configuration store.
#[derive(Clone, Copy, PartialEq, Eq, Structural, Debug)]
pub enum ConfigError {
    /// A record exists but cannot be read back as a settings record.
    /// Fatal at startup: falling back to defaults would mask data loss.
    Corrupt,
    /// A write failed; the prior persisted value remains in effect.
    Io,
}

/// The persisted settings record.
#[derive(Debug)]
pub struct ConfigRecord {
    /// Notification title.
    pub title: String,
    /// Notification body.
    pub message: String,
    /// Reminder interval in minutes; always at least one.
    pub minutes: u64,
}

/// Whether `r` is exactly the documented default record.
pub open spec fn is_default_record(r: ConfigRecord) -> bool {
    &&& r.title@ == default_title()
    &&& r.message@ == default_message()
    &&& r.minutes == DEFAULT_MINUTES
}

impl ConfigRecord {
    /// The record invariant: the interval never drops below one minute.
    pub open spec fn wf(self) -> bool {
        self.minutes >= 1
    }

    /// Builds a record from loose parts, rejecting an interval below one
    /// minute: such a record can never have been persisted by this system.
    pub fn from_parts(title: String, message: String, minutes: u64) -> (r: Result<
        ConfigRecord,
        ConfigError,
    >)
        ensures
            minutes >= 1 ==> (r matches Ok(c) && c.title == title && c.message == message
                && c.minutes == minutes && c.wf()),
            minutes == 0 ==> r == Err::<ConfigRecord, ConfigError>(ConfigError::Corrupt),
    {
        if minutes >= 1 {
            Ok(ConfigRecord { title, message, minutes })
        } else {
            Err(ConfigError::Corrupt)
        }
    }

    /// Full-record replace of the interval alone: title and body are kept.
    pub fn with_minutes(self, minutes: u64) -> (r: ConfigRecord)
        requires
            minutes >= 1,
        ensures
            r.minutes == minutes,
            r.title == self.title,
            r.message == self.message,
            r.wf(),
    {
        ConfigRecord { minutes, title: self.title, message: self.message }
    }

    /// Full-record replace of the title alone: body and interval are kept.
    pub fn with_title(self, title: String) -> (r: ConfigRecord)
        requires
            self.wf(),
        ensures
            r.title == title,
            r.message == self.message,
            r.minutes == self.minutes,
            r.wf(),
    {
        ConfigRecord { title, message: self.message, minutes: self.minutes }
    }

    /// Full-record replace of the body alone: title and interval are kept.
    pub fn with_message(self, message: String) -> (r: ConfigRecord)
        requires
            self.wf(),
        ensures
            r.message == message,
            r.title == self.title,
            r.minutes == self.minutes,
            r.wf(),
    {
        ConfigRecord { message, title: self.title, minutes: self.minutes }
    }

    /// A copy of the record, field for field.
    pub fn snapshot(&self) -> (r: ConfigRecord)
        ensures
            r.title == self.title,
            r.message == self.message,
            r.minutes == self.minutes,
    {
        ConfigRecord {
            title: self.title.clone(),
            message: self.message.clone(),
            minutes: self.minutes,
        }
    }
}

/// What the persistence layer holds for this application.
pub enum PersistedState {
    /// No record has ever been written: first run.
    Absent,
    /// A record was written atomically and can be read back whole.
    Valid(ConfigRecord),
    /// Something is at the config location but it is not a settings record.
    Unreadable,
}

/// The settings store: the single source of truth consulted at every
/// scheduling cycle and by every menu handler.
///
/// Writes replace the whole record atomically, so a reader observes either
/// the old record or the new one, never a partial write; that is why the
/// state below is one of exactly three shapes and nothing in between.
pub struct ConfigStore {
    state: PersistedState,
}

impl View for ConfigStore {
    type V = PersistedState;

    closed spec fn view(&self) -> PersistedState {
        self.state
    }
}

impl ConfigStore {
    /// Every record the store holds satisfies the record invariant.
    pub open spec fn wf(self) -> bool {
        self@ matches PersistedState::Valid(r) ==> r.wf()
    }

    /// A store with nothing persisted yet.
    pub fn absent() -> (s: ConfigStore)
        ensures
            s@ == PersistedState::Absent,
            s.wf(),
    {
        ConfigStore { state: PersistedState::Absent }
    }

    /// A store holding one previously persisted record.
    pub fn with_record(rec: ConfigRecord) -> (s: ConfigStore)
        requires
            rec.wf(),
        ensures
            s@ == PersistedState::Valid(rec),
            s.wf(),
    {
        ConfigStore { state: PersistedState::Valid(rec) }
    }

    /// A store whose persisted data cannot be read back as a record.
    pub fn unreadable() -> (s: ConfigStore)
        ensures
            s@ == PersistedState::Unreadable,
            s.wf(),
    {
        ConfigStore { state: PersistedState::Unreadable }
    }

    /// Returns the persisted record, the documented default when nothing
    /// was ever persisted, and `ConfigError::Corrupt` when a record exists
    /// but cannot be read: exactly one of the three, decided by the state.
    pub fn load(&self) -> (r: Result<ConfigRecord, ConfigError>)
        requires
            self.wf(),
        ensures
            self@ is Absent ==> (r matches Ok(c) && is_default_record(c)),
            self@ matches PersistedState::Valid(rec) ==> (r matches Ok(c) && c.title == rec.title
                && c.message == rec.message && c.minutes == rec.minutes),
            self@ is Unreadable ==> r == Err::<ConfigRecord, ConfigError>(ConfigError::Corrupt),
            r matches Ok(c) ==> c.wf(),
    {
        match &self.state {
            PersistedState::Absent => Ok(ConfigRecord::default()),
            PersistedState::Valid(rec) => Ok(rec.snapshot()),
            PersistedState::Unreadable => Err(ConfigError::Corrupt),
        }
    }

    /// Atomic full-record replace: afterwards the store holds exactly the
    /// given record, whatever it held before.
    pub fn store(&mut self, rec: ConfigRecord)
        requires
            rec.wf(),
        ensures
            final(self)@ == PersistedState::Valid(rec),
            final(self).wf(),
    {
        self.state = PersistedState::Valid(rec);
    }
}

impl Default for ConfigRecord {
    /// The record supplied on first run, before anything was persisted.
    fn default() -> (r: Self)
        ensures
            is_default_record(r),
            r.wf(),
    {
        ConfigRecord {
            title: String::from_str("Eyes break"),
            message: String::from_str("Time to take a break!"),
            minutes: 20,
        }
    }
}

} // verus!
