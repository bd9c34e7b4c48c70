use vstd::prelude::*;
use crate::table::Table;

verus! {

/// The number of nanoseconds in a second.
pub const NANOS_PER_SEC: u64 = 1_000_000_000;

/// A periodic timer of a strategy: its name, its period in seconds and
/// whether it runs.
#[derive(Debug)]
pub struct TimerConfig {
    pub id: String,
    pub interval_seconds: u64,
    pub enabled: bool,
}

/// The periodic timers of a strategy: which are set, and when each last
/// ran, in nanoseconds.
pub struct TimerRegistry {
    pub active: Table<String, u64>,
    pub last_execution: Table<String, u64>,
}

/// When the timer `id` last ran in `r`; 0 when it never did.
pub open spec fn last_run(m: Map<Seq<char>, u64>, id: Seq<char>) -> u64 {
    if m.contains_key(id) { m[id] } else { 0 }
}

/// Whether a timer that last ran at `last` is due at `now` with a period of
/// `interval_seconds`.
pub open spec fn is_due(last: u64, now: u64, interval_seconds: u64) -> bool {
    now - last >= interval_seconds * NANOS_PER_SEC
}

/// The whole seconds left at `now` before a timer that last ran at `last`
/// is due, 0 when it is due.
pub open spec fn wait_secs(last: u64, now: u64, interval_seconds: u64) -> int {
    let elapsed = now - last;
    let interval = interval_seconds * NANOS_PER_SEC;
    if elapsed >= interval { 0 } else { (interval - elapsed) / (NANOS_PER_SEC as int) }
}

impl TimerRegistry {
    /// No timer set, none ever ran.
    pub fn new() -> (r: Self)
        ensures
            r.active@ == Map::<Seq<char>, u64>::empty(),
            r.last_execution@ == Map::<Seq<char>, u64>::empty(),
    {
        TimerRegistry { active: Table::new(), last_execution: Table::new() }
    }

    /// Forgets the timer `timer_id`; returns the handle it was set with,
    /// which then has to be cleared.
    pub fn clear_timer(&mut self, timer_id: &str) -> (r: Option<u64>)
        ensures
            final(self).active@ == old(self).active@.remove(timer_id@),
            r == (if old(self).active@.contains_key(timer_id@) {
                Some(old(self).active@[timer_id@])
            } else {
                None::<u64>
            }),
            final(self).last_execution == old(self).last_execution,
    {
        self.active.remove(&timer_id.to_string())
    }

    /// Sets up the timer of `config` at `now`: any timer of that name is
    /// forgotten first (its handle is returned, to be cleared); an enabled
    /// timer counts as run at `now` and, once set with a handle by the
    /// caller, is registered with `register_timer`.
    pub fn set_timer(&mut self, config: &TimerConfig, now: u64) -> (r: Option<u64>)
        ensures
            final(self).active@ == old(self).active@.remove(config.id@),
            r == (if old(self).active@.contains_key(config.id@) {
                Some(old(self).active@[config.id@])
            } else {
                None::<u64>
            }),
            final(self).last_execution@ == (if config.enabled {
                old(self).last_execution@.insert(config.id@, now)
            } else {
                old(self).last_execution@
            }),
    {
        let cleared = self.clear_timer(config.id.as_str());
        if config.enabled {
            self.last_execution.insert(config.id.clone(), now);
        }
        cleared
    }

    /// Records the handle of the timer `timer_id` once it is set.
    pub fn register_timer(&mut self, timer_id: &str, handle: u64)
        ensures
            final(self).active@ == old(self).active@.insert(timer_id@, handle),
            final(self).last_execution == old(self).last_execution,
    {
        self.active.insert(timer_id.to_string(), handle);
    }

    /// Whether the timer `timer_id` is due at `now` for a period of
    /// `interval_seconds`; when it is, it counts as run at `now`.
    pub fn should_trigger(&mut self, timer_id: &str, interval_seconds: u64, now: u64) -> (r: bool)
        requires
            last_run(old(self).last_execution@, timer_id@) <= now,
            interval_seconds * NANOS_PER_SEC <= u64::MAX,
        ensures
            r == is_due(last_run(old(self).last_execution@, timer_id@), now, interval_seconds),
            final(self).last_execution@ == (if r {
                old(self).last_execution@.insert(timer_id@, now)
            } else {
                old(self).last_execution@
            }),
            final(self).active == old(self).active,
    {
        let key = timer_id.to_string();
        let last_time: u64 = match self.last_execution.get(&key) {
            Some(t) => *t,
            None => 0,
        };
        if now - last_time >= interval_seconds * NANOS_PER_SEC {
            self.last_execution.insert(key, now);
            true
        } else {
            false
        }
    }

    /// Records that the timer `timer_id` ran at `now`.
    pub fn update_last_execution(&mut self, timer_id: &str, now: u64)
        ensures
            final(self).last_execution@ == old(self).last_execution@.insert(timer_id@, now),
            final(self).active == old(self).active,
    {
        self.last_execution.insert(timer_id.to_string(), now);
    }

    /// The whole seconds left at `now` before the timer `timer_id` is due
    /// for a period of `interval_seconds`; 0 when it is due.
    pub fn time_until_next_execution(&self, timer_id: &str, interval_seconds: u64, now: u64) -> (r: u64)
        requires
            last_run(self.last_execution@, timer_id@) <= now,
            interval_seconds * NANOS_PER_SEC <= u64::MAX,
        ensures
            r == wait_secs(last_run(self.last_execution@, timer_id@), now, interval_seconds),
    {
        let key = timer_id.to_string();
        let last_time: u64 = match self.last_execution.get(&key) {
            Some(t) => *t,
            None => 0,
        };
        let elapsed_ns = now - last_time;
        let interval_ns = interval_seconds * NANOS_PER_SEC;
        if elapsed_ns >= interval_ns {
            0
        } else {
            (interval_ns - elapsed_ns) / NANOS_PER_SEC
        }
    }
}

/// A timer that is due has no time left to wait, and the wait never
/// exceeds the period.
pub proof fn law_due_means_no_wait(last: u64, now: u64, interval_seconds: u64)
    requires
        last <= now,
        interval_seconds * NANOS_PER_SEC <= u64::MAX,
    ensures
        is_due(last, now, interval_seconds) ==> wait_secs(last, now, interval_seconds) == 0,
        0 <= wait_secs(last, now, interval_seconds) <= interval_seconds,
{
    let elapsed = now - last;
    let interval = interval_seconds * NANOS_PER_SEC;
    if elapsed < interval {
        assert((interval - elapsed) / (NANOS_PER_SEC as int) <= interval / (NANOS_PER_SEC as int)) by (nonlinear_arith)
            requires
                0 < interval - elapsed <= interval,
        ;
        assert(interval / (NANOS_PER_SEC as int) == interval_seconds) by (nonlinear_arith)
            requires
                interval == interval_seconds * 1_000_000_000,
        ;
    }
}

/// A timer that just ran is not due again at the same time unless its
/// period is zero: two checks at one time fire at most once.
pub proof fn law_fires_once_per_instant(now: u64, interval_seconds: u64)
    requires
        interval_seconds * NANOS_PER_SEC <= u64::MAX,
    ensures
        is_due(now, now, interval_seconds) <==> interval_seconds == 0,
{
}

} // verus!
