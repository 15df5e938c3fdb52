//! The reminder scheduler: a perpetual loop alternating a waiting phase and
//! a notifying phase.
//!
//! The scheduler itself never sleeps and never touches the notification
//! service; it decides. The surrounding process runs the loop: it reads the
//! store fresh at each cycle boundary, performs each suspend, shows and
//! closes the notification, and feeds every outcome back into the phase
//! machine below. A cooperative shutdown flag is consulted at each suspend
//! boundary, so the loop can be terminated deterministically from the menu.
//!
//! The timing of the loop is captured by [`show_time_at`], and
//! [`simulate`] runs the whole cycle structure on a given history of store
//! reads, which is what the temporal contracts and the scenario tests use.

use vstd::prelude::*;

use crate::config::ConfigRecord;

verus! {

/// Seconds in one minute: the unit conversion for the configured interval.
pub const SECONDS_PER_MINUTE: u64 = 60;

/// Fixed display window: a shown notification is closed this many seconds
/// after it appeared.
pub const DISPLAY_WINDOW_SECS: u64 = 20;

/// Priority hint handed to the notification service.
#[derive(Clone, Copy, PartialEq, Eq, Structural, Debug)]
pub enum Urgency {
    /// Low priority.
    Low,
    /// Default priority.
    Normal,
    /// Highest priority; reminders use this so they surface over other
    /// windows.
    Critical,
}

/// What the scheduler asks the presenter to show when a wait elapses.
pub struct NotificationRequest {
    /// Notification title, read from the store at the moment of firing.
    pub title: String,
    /// Notification body, read from the store at the moment of firing.
    pub message: String,
    /// Always `Critical` for a reminder.
    pub urgency: Urgency,
}

/// The phases of one reminder cycle.
#[derive(Clone, Copy, PartialEq, Eq, Structural, Debug)]
pub enum SchedulerPhase {
    /// Suspended for the configured interval.
    Waiting,
    /// The wait elapsed; a show request is out and its outcome is pending.
    Showing,
    /// A notification is on screen; suspended for the display window.
    Notifying,
    /// The cooperative shutdown signal was observed; the loop is over.
    Stopped,
}

/// The phase machine of the reminder loop.
pub struct ReminderScheduler {
    state: SchedulerPhase,
}

/// The length of one wait phase in seconds, for the record in effect when
/// the wait began.
pub open spec fn wait_seconds_of(cfg: ConfigRecord) -> int {
    SECONDS_PER_MINUTE * cfg.minutes
}

/// Start time of the `k`-th notification show (counting from zero), on a
/// run whose `i`-th cycle reads record `cfgs[i]` from the store.
///
/// Each cycle is a full interval wait followed, after the show, by the
/// fixed display window; so show `k` starts one wait after the close of
/// show `k - 1`.
pub open spec fn show_time_at(cfgs: Seq<ConfigRecord>, k: int) -> int
    decreases k,
{
    if k <= 0 {
        wait_seconds_of(cfgs[0])
    } else {
        show_time_at(cfgs, k - 1) + DISPLAY_WINDOW_SECS + wait_seconds_of(cfgs[k])
    }
}

impl ReminderScheduler {
    /// The current phase, as the contracts see it.
    pub closed spec fn phase(self) -> SchedulerPhase {
        self.state
    }

    /// A fresh scheduler starts in the waiting phase.
    pub fn new() -> (s: ReminderScheduler)
        ensures
            s.phase() is Waiting,
    {
        ReminderScheduler { state: SchedulerPhase::Waiting }
    }

    /// The current phase, for the loop around the machine.
    pub fn current_phase(&self) -> (p: SchedulerPhase)
        ensures
            p == self.phase(),
    {
        self.state
    }

    /// Whether the loop is over.
    pub fn stopped(&self) -> (b: bool)
        ensures
            b == (self.phase() is Stopped),
    {
        matches!(self.state, SchedulerPhase::Stopped)
    }

    /// How long the wait phase now beginning lasts, from the interval the
    /// store holds at this cycle boundary — read fresh, so an interval
    /// change takes effect at the very next cycle.
    pub fn next_wait_seconds(&self, cfg: &ConfigRecord) -> (secs: u64)
        requires
            self.phase() is Waiting,
            cfg.wf(),
            cfg.minutes <= u64::MAX / SECONDS_PER_MINUTE,
        ensures
            secs == wait_seconds_of(*cfg),
    {
        cfg.minutes * SECONDS_PER_MINUTE
    }

    /// The wait elapsed. If the shutdown signal is up, stop without
    /// showing anything; otherwise request a notification carrying the
    /// title and body the store holds at this very moment, at critical
    /// urgency, and await the show outcome.
    pub fn on_wait_elapsed(&mut self, shutdown: bool, cfg: &ConfigRecord) -> (r: Option<
        NotificationRequest,
    >)
        requires
            old(self).phase() is Waiting,
        ensures
            shutdown ==> final(self).phase() is Stopped && r is None,
            !shutdown ==> final(self).phase() is Showing && (r matches Some(req)
                && req.title == cfg.title && req.message == cfg.message
                && req.urgency == Urgency::Critical),
    {
        if shutdown {
            self.state = SchedulerPhase::Stopped;
            None
        } else {
            self.state = SchedulerPhase::Showing;
            Some(
                NotificationRequest {
                    title: cfg.title.clone(),
                    message: cfg.message.clone(),
                    urgency: Urgency::Critical,
                },
            )
        }
    }

    /// The presenter reported on the show request. On success the
    /// notification is on screen for the fixed display window; on failure
    /// the cycle is skipped — never fatal — and the next wait begins.
    pub fn on_show_outcome(&mut self, shown: bool) -> (window: Option<u64>)
        requires
            old(self).phase() is Showing,
        ensures
            shown ==> final(self).phase() is Notifying && window == Some(DISPLAY_WINDOW_SECS),
            !shown ==> final(self).phase() is Waiting && window is None,
    {
        if shown {
            self.state = SchedulerPhase::Notifying;
            Some(DISPLAY_WINDOW_SECS)
        } else {
            self.state = SchedulerPhase::Waiting;
            None
        }
    }

    /// The display window elapsed and the notification is to be closed.
    /// The shutdown signal is consulted at this suspend boundary too.
    pub fn on_display_elapsed(&mut self, shutdown: bool)
        requires
            old(self).phase() is Notifying,
        ensures
            shutdown ==> final(self).phase() is Stopped,
            !shutdown ==> final(self).phase() is Waiting,
    {
        if shutdown {
            self.state = SchedulerPhase::Stopped;
        } else {
            self.state = SchedulerPhase::Waiting;
        }
    }
}

/// One completed cycle of a simulated run: when its notification appeared,
/// when it was closed, and what it said.
pub struct CycleTrace {
    /// Simulated second at which the show started.
    pub show_time: u64,
    /// Simulated second at which the close was issued.
    pub close_time: u64,
    /// Title shown, as read from the store for that cycle.
    pub title: String,
    /// Body shown, as read from the store for that cycle.
    pub message: String,
}

/// What the trace of a simulated run says about its `i`-th cycle.
pub open spec fn cycle_matches(
    cfgs: Seq<ConfigRecord>,
    trace: Seq<CycleTrace>,
    i: int,
    budget: u64,
) -> bool {
    &&& trace[i].show_time == show_time_at(cfgs, i)
    &&& trace[i].close_time == show_time_at(cfgs, i) + DISPLAY_WINDOW_SECS
    &&& trace[i].title == cfgs[i].title
    &&& trace[i].message == cfgs[i].message
    &&& show_time_at(cfgs, i) <= budget
}

/// Show times grow along the run and each one is at least its own wait.
proof fn lemma_show_time_bounds(cfgs: Seq<ConfigRecord>, k: int)
    requires
        0 <= k,
    ensures
        show_time_at(cfgs, k) >= wait_seconds_of(cfgs[k]),
        k > 0 ==> show_time_at(cfgs, k) == show_time_at(cfgs, k - 1) + DISPLAY_WINDOW_SECS
            + wait_seconds_of(cfgs[k]),
        show_time_at(cfgs, k) >= 0,
    decreases k,
{
    if k > 0 {
        lemma_show_time_bounds(cfgs, k - 1);
    }
}

/// Runs the reminder loop on simulated time. `configs[i]` is the record
/// the store holds throughout cycle `i` — the history of what concurrent
/// menu actions left in the store. The run stops once the next show would
/// fall beyond `budget` simulated seconds (or once the given history is
/// exhausted); a show at the budget boundary still happens, and its close
/// follows a full display window later.
pub fn simulate(configs: &Vec<ConfigRecord>, budget: u64) -> (trace: Vec<CycleTrace>)
    requires
        forall|k: int|
            0 <= k < configs@.len() ==> #[trigger] show_time_at(configs@, k) + DISPLAY_WINDOW_SECS
                <= u64::MAX,
    ensures
        trace@.len() <= configs@.len(),
        forall|i: int| 0 <= i < trace@.len() ==> #[trigger] cycle_matches(configs@, trace@, i, budget),
        trace@.len() < configs@.len() ==> show_time_at(configs@, trace@.len() as int) > budget,
{
    let mut trace: Vec<CycleTrace> = Vec::new();
    let mut t: u64 = 0;
    let mut k: usize = 0;
    let mut over_budget: bool = false;
    while k < configs.len() && !over_budget
        invariant
            0 <= k <= configs@.len(),
            trace@.len() == k,
            forall|j: int|
                0 <= j < configs@.len() ==> #[trigger] show_time_at(configs@, j)
                    + DISPLAY_WINDOW_SECS <= u64::MAX,
            k == 0 ==> t == 0,
            k > 0 ==> t == show_time_at(configs@, k - 1) + DISPLAY_WINDOW_SECS,
            forall|i: int| 0 <= i < k ==> #[trigger] cycle_matches(configs@, trace@, i, budget),
            over_budget ==> k < configs@.len() && show_time_at(configs@, k as int) > budget,
        decreases configs@.len() - k + (if over_budget { 0int } else { 1int }),
    {
        proof {
            lemma_show_time_bounds(configs@, k as int);
        }
        let cfg = &configs[k];
        let wait = cfg.minutes * SECONDS_PER_MINUTE;
        let show = t + wait;
        if show > budget {
            over_budget = true;
        } else {
            let close = show + DISPLAY_WINDOW_SECS;
            let ghost pre = trace@;
            trace.push(
                CycleTrace {
                    show_time: show,
                    close_time: close,
                    title: cfg.title.clone(),
                    message: cfg.message.clone(),
                },
            );
            proof {
                assert(show == show_time_at(configs@, k as int));
                assert forall|i: int| 0 <= i < k + 1 implies #[trigger] cycle_matches(
                    configs@,
                    trace@,
                    i,
                    budget,
                ) by {
                    if i < k {
                        assert(cycle_matches(configs@, pre, i, budget));
                        assert(trace@[i] == pre[i]);
                    }
                }
            }
            t = close;
            k = k + 1;
        }
    }
    trace
}

/// Cadence law: the time between the starts of two consecutive
/// notification shows is the interval in effect during the wait between
/// them, converted to seconds, plus the fixed display window of the
/// earlier notification.
pub proof fn lemma_cadence(cfgs: Seq<ConfigRecord>, k: int)
    requires
        0 <= k,
        k + 1 < cfgs.len(),
    ensures
        show_time_at(cfgs, k + 1) - show_time_at(cfgs, k) == wait_seconds_of(cfgs[k + 1])
            + DISPLAY_WINDOW_SECS,
{
}

/// Live reconfiguration law: a record stored while the scheduler is
/// waiting is what the next cycle boundary reads, so the wait that follows
/// the current one lasts the new interval.
pub proof fn lemma_interval_change_takes_effect(
    cfgs: Seq<ConfigRecord>,
    k: int,
    updated: ConfigRecord,
)
    requires
        0 <= k,
        k + 1 < cfgs.len(),
        cfgs[k + 1] == updated,
    ensures
        show_time_at(cfgs, k + 1) == show_time_at(cfgs, k) + DISPLAY_WINDOW_SECS
            + SECONDS_PER_MINUTE * updated.minutes,
{
}

/// The wait between two shows depends only on the record read at its own
/// cycle boundary: two runs whose stores agree there have the same gap,
/// whatever intervals were in effect when either loop started.
pub proof fn lemma_wait_ignores_stale_interval(
    c1: Seq<ConfigRecord>,
    c2: Seq<ConfigRecord>,
    k: int,
)
    requires
        0 <= k,
        k + 1 < c1.len(),
        k + 1 < c2.len(),
        c1[k + 1].minutes == c2[k + 1].minutes,
    ensures
        show_time_at(c1, k + 1) - show_time_at(c1, k) == show_time_at(c2, k + 1) - show_time_at(
            c2,
            k,
        ),
{
}

} // verus!
