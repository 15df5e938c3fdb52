//! The night-light command line and the notification handle lifecycle.

use lizard::config::ConfigRecord;
use lizard::light::night_light_command;
use lizard::presenter::{self, PresentError, ReminderHandle};
use lizard::scheduler::{simulate, ReminderScheduler};

#[test]
fn night_light_on_arguments() {
    let c = night_light_command(true);
    assert_eq!(c.program, "gsettings");
    assert_eq!(
        c.args,
        vec!["set", "org.gnome.settings-daemon.plugins.color", "night-light-enabled", "true"]
    );
}

#[test]
fn night_light_off_arguments() {
    let c = night_light_command(false);
    assert_eq!(c.program, "gsettings");
    assert_eq!(
        c.args,
        vec!["set", "org.gnome.settings-daemon.plugins.color", "night-light-enabled", "false"]
    );
}

#[test]
fn night_light_toggle_order_and_failure_tolerance() {
    // Enable then disable: the two command lines differ only in the final
    // state argument, issued in that order.
    let issued = vec![night_light_command(true), night_light_command(false)];
    assert_eq!(issued[0].args[3], "true");
    assert_eq!(issued[1].args[3], "false");
    // Both spawns failing changes nothing for the scheduler: a later run
    // still shows its reminders on time.
    let configs = vec![ConfigRecord {
        title: "t".to_string(),
        message: "m".to_string(),
        minutes: 1,
    }];
    let trace = simulate(&configs, 60);
    assert_eq!(trace.len(), 1);
    let mut s = ReminderScheduler::new();
    assert!(s.on_wait_elapsed(false, &configs[0]).is_some());
}

#[test]
fn show_outcome_is_handled_either_way() {
    // With a notification service present the handle comes back open and
    // closing twice is harmless; without one the error is exactly the
    // unavailability the scheduler treats as a skipped cycle.
    let mut s = ReminderScheduler::new();
    let cfg = ConfigRecord { title: "t".to_string(), message: "m".to_string(), minutes: 1 };
    let req = s.on_wait_elapsed(false, &cfg).unwrap();
    match presenter::show(&req, "") {
        Ok(mut handle) => {
            assert!(handle.is_open());
            handle.close();
            handle.close();
            assert!(!handle.is_open());
        }
        Err(e) => assert_eq!(e, PresentError::NotifyUnavailable),
    }
}

#[test]
fn close_is_idempotent() {
    // A handle whose notification is already gone — externally dismissed
    // or closed before — can be closed again and again without error.
    let mut h = ReminderHandle::already_closed();
    assert!(!h.is_open());
    h.close();
    h.close();
    assert!(!h.is_open());
}
