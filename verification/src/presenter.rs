//! The notification presenter: shows one notification per display cycle
//! and closes it again.
//!
//! The OS notification service itself is an external collaborator; the
//! calls into it stand behind trusted wrappers. What the library verifies
//! is the handle lifecycle around them: a handle is `Shown` or closed,
//! closing moves it to closed, and closing an already-closed handle —
//! whether it was closed by the display-window timeout, by an earlier call,
//! or externally by the user — is a no-op and never an error.

use vstd::prelude::*;

use crate::scheduler::NotificationRequest;
use crate::scheduler::Urgency;

verus! {

/// Error raised by the presenter.
#[derive(Clone, Copy, PartialEq, Eq, Structural, Debug)]
pub enum PresentError {
    /// The OS notification service cannot be reached. The caller logs and
    /// continues; the scheduler treats the cycle as skipped.
    NotifyUnavailable,
}

#[verifier::external_type_specification]
#[verifier::external_body]
/// A live connection to one on-screen notification, owned by the outside
/// notification crate; opaque here.
pub struct ExNotificationHandle(notify_rust::NotificationHandle);

#[verifier::external_type_specification]
#[verifier::external_body]
/// The outside notification crate's error; opaque here, mapped to
/// [`PresentError`] at the boundary.
pub struct ExNotifyError(notify_rust::error::Error);

/// Relies on notify_rust::Notification: builds a notification with the
/// given summary, body, icon and urgency and asks the desktop notification
/// service to show it; `Err` when the service cannot be reached.
#[verifier::external_body]
fn show_raw(title: &str, body: &str, icon: &str, urgency: Urgency) -> (r: Result<
    notify_rust::NotificationHandle,
    notify_rust::error::Error,
>) {
    let level = match urgency {
        Urgency::Low => notify_rust::Urgency::Low,
        Urgency::Normal => notify_rust::Urgency::Normal,
        Urgency::Critical => notify_rust::Urgency::Critical,
    };
    notify_rust::Notification::new().summary(title).body(body).icon(icon).urgency(level).show()
}

/// Relies on notify_rust::NotificationHandle::close: asks the service to
/// withdraw the notification; the handle is consumed and the call returns
/// nothing, whether or not the notification was still on screen.
#[verifier::external_body]
fn close_raw(handle: notify_rust::NotificationHandle) {
    handle.close();
}

/// A handle to the notification of one display cycle.
///
/// The handle tracks only what this process did with it: once `close` ran,
/// the handle is closed for good. The user or the OS may dismiss the
/// notification on screen at any time; the handle cannot observe that, and
/// closing afterwards is harmless — the service withdrawal of a gone
/// notification does nothing.
pub struct ReminderHandle {
    conn: Option<notify_rust::NotificationHandle>,
}

impl ReminderHandle {
    /// Whether this handle was already closed by this library.
    pub closed spec fn is_closed(self) -> bool {
        self.conn is None
    }

    /// A handle whose notification is already gone — as after the display
    /// window ran out and it was closed, or after an external dismissal
    /// severed the connection.
    pub fn already_closed() -> (h: ReminderHandle)
        ensures
            h.is_closed(),
    {
        ReminderHandle { conn: None }
    }

    /// Whether this handle still holds its notification connection.
    pub fn is_open(&self) -> (b: bool)
        ensures
            b == !self.is_closed(),
    {
        self.conn.is_some()
    }

    /// Closes the notification. Idempotent: on a handle already closed —
    /// by an earlier call or because the notification is externally gone —
    /// this does nothing, and it never errors.
    pub fn close(&mut self)
        ensures
            final(self).is_closed(),
            old(self).is_closed() ==> *final(self) == *old(self),
    {
        match self.conn.take() {
            Some(handle) => close_raw(handle),
            None => (),
        }
    }
}

/// Shows the requested notification with the given icon. `Err` exactly
/// when the notification service could not be reached, in which case
/// nothing is on screen and the caller continues; on `Ok` the returned
/// handle is open and one notification is on screen.
pub fn show(req: &NotificationRequest, icon_path: &str) -> (r: Result<
    ReminderHandle,
    PresentError,
>)
    ensures
        r matches Ok(h) ==> !h.is_closed(),
        r matches Err(e) ==> e == PresentError::NotifyUnavailable,
{
    match show_raw(req.title.as_str(), req.message.as_str(), icon_path, req.urgency) {
        Ok(handle) => Ok(ReminderHandle { conn: Some(handle) }),
        Err(_) => Err(PresentError::NotifyUnavailable),
    }
}

} // verus!
