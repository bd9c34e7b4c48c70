use vstd::prelude::*;
use crate::deployment::registry_unchanged;
use crate::payment::{failed_records, refund_failed_deployments, refunds_failed, with_fee};
use crate::records::{
    all_stored, archived_ids, completed_records, lemma_records_view, memory_usage_percent, record_list, records_view,
    status_updated, views,
};
use crate::state::{ARCHIVING_THRESHOLD_PERCENT, CallContext, FactoryState};
use crate::text::{bool_text, decimal, push_bool, push_decimal};
use crate::types::{DeploymentRecord, DeploymentRecordView, DeploymentStatus};

verus! {

/// Seconds between two runs of the cleanup tasks: five minutes.
pub const CLEANUP_INTERVAL_SECS: u64 = 300;

/// Seconds before a failed task is tried again.
pub const RETRY_INTERVAL_SECS: u64 = 3600;

/// How many times a failed task is tried again.
pub const MAX_RETRY_COUNT: u32 = 5;

/// The bookkeeping of the factory's timers: whether the cleanup timer is
/// scheduled, how many times the current task has been retried, and the
/// last task error.
pub struct TimerState {
    pub cleanup_scheduled: bool,
    pub retry_count: u32,
    pub last_error: Option<String>,
}

/// What the caller of the timer bookkeeping must do with the real timers.
#[derive(Debug, PartialEq, Eq, Structural)]
pub enum TimerAction {
    /// Set the cleanup timer to fire after this many seconds.
    ScheduleCleanup(u64),
    /// Clear the cleanup timer, then set it to fire after this many seconds.
    RescheduleCleanup(u64),
}

/// The text of an optional error, `none` when there is none.
pub open spec fn opt_error_text(e: Option<String>) -> Seq<char> {
    match e {
        Some(s) => s@,
        None => "none"@,
    }
}

impl TimerState {
    /// No timer scheduled, no retry, no error.
    pub fn new() -> (r: Self)
        ensures
            !r.cleanup_scheduled,
            r.retry_count == 0,
            r.last_error is None,
    {
        TimerState { cleanup_scheduled: false, retry_count: 0, last_error: None }
    }

    /// Resets the retry count and schedules the cleanup timer.
    pub fn schedule_timers(&mut self) -> (r: TimerAction)
        ensures
            final(self).cleanup_scheduled,
            final(self).retry_count == 0,
            final(self).last_error == old(self).last_error,
            r == TimerAction::ScheduleCleanup(CLEANUP_INTERVAL_SECS),
    {
        self.retry_count = 0;
        self.restart_cleanup_timer()
    }

    /// Schedules the cleanup timer again.
    pub fn restart_cleanup_timer(&mut self) -> (r: TimerAction)
        ensures
            final(self).cleanup_scheduled,
            final(self).retry_count == old(self).retry_count,
            final(self).last_error == old(self).last_error,
            r == TimerAction::ScheduleCleanup(CLEANUP_INTERVAL_SECS),
    {
        let manager = TimerTaskManager::new();
        self.cleanup_scheduled = true;
        TimerAction::ScheduleCleanup(manager.cleanup_interval_secs)
    }

    /// Marks the cleanup timer as cancelled; returns whether one was
    /// scheduled, which then has to be cleared.
    pub fn cancel_timers(&mut self) -> (r: bool)
        ensures
            r == old(self).cleanup_scheduled,
            !final(self).cleanup_scheduled,
            final(self).retry_count == old(self).retry_count,
            final(self).last_error == old(self).last_error,
    {
        let was = self.cleanup_scheduled;
        self.cleanup_scheduled = false;
        was
    }

    /// Cancels the cleanup timer and schedules it anew, with the retry count
    /// reset.
    pub fn reset_timers(&mut self) -> (r: TimerAction)
        ensures
            final(self).cleanup_scheduled,
            final(self).retry_count == 0,
            final(self).last_error == old(self).last_error,
            r == TimerAction::RescheduleCleanup(CLEANUP_INTERVAL_SECS),
    {
        let _ = self.cancel_timers();
        let _ = self.schedule_timers();
        TimerAction::RescheduleCleanup(CLEANUP_INTERVAL_SECS)
    }

    /// A line describing the timers: whether the cleanup timer is active,
    /// the retry count and the last error.
    pub fn get_timer_status(&self) -> (r: String)
        ensures
            r@ == "Timer status: active="@ + bool_text(self.cleanup_scheduled) + ", retry_count="@ + decimal(
                self.retry_count as nat,
            ) + ", last_error="@ + opt_error_text(self.last_error),
    {
        let mut s = "Timer status: active=".to_string();
        push_bool(&mut s, self.cleanup_scheduled);
        s.append(", retry_count=");
        push_decimal(&mut s, self.retry_count as u128);
        s.append(", last_error=");
        match &self.last_error {
            Some(e) => s.append(e.as_str()),
            None => s.append("none"),
        }
        s
    }
}

/// The settings of the periodic tasks: the retry bound, the retry delay
/// and the cleanup interval, in seconds.
pub struct TimerTaskManager {
    pub max_retries: u32,
    pub retry_interval_secs: u64,
    pub cleanup_interval_secs: u64,
}

impl TimerTaskManager {
    /// The default settings.
    pub fn new() -> (r: Self)
        ensures
            r.max_retries == MAX_RETRY_COUNT,
            r.retry_interval_secs == RETRY_INTERVAL_SECS,
            r.cleanup_interval_secs == CLEANUP_INTERVAL_SECS,
    {
        TimerTaskManager {
            max_retries: MAX_RETRY_COUNT,
            retry_interval_secs: RETRY_INTERVAL_SECS,
            cleanup_interval_secs: CLEANUP_INTERVAL_SECS,
        }
    }

    /// Books the result of a run of the task `task_name`: a success clears
    /// the retry count and the error and is passed on; a failure is kept as
    /// the last error, counts as the first retry, and asks for the task to
    /// be run again later.
    pub fn execute_with_retry(&self, timers: &mut TimerState, task_name: &str, result: Result<usize, String>) -> (r:
        Result<usize, String>)
        requires
            self.max_retries >= 1,
        ensures
            result matches Ok(n) ==> r == Ok::<usize, String>(n) && final(timers).retry_count == 0
                && final(timers).last_error is None,
            result matches Err(e) ==> (r matches Err(m) && m@ == "Retry needed for task "@ + task_name@)
                && final(timers).retry_count == 1 && final(timers).last_error == Some(e),
            final(timers).cleanup_scheduled == old(timers).cleanup_scheduled,
    {
        match result {
            Ok(count) => {
                timers.retry_count = 0;
                timers.last_error = None;
                Ok(count)
            },
            Err(e) => {
                timers.last_error = Some(e);
                let retry_count: u32 = 1;
                if retry_count <= self.max_retries {
                    timers.retry_count = retry_count;
                    let mut m = "Retry needed for task ".to_string();
                    m.append(task_name);
                    Err(m)
                } else {
                    let mut m = "Task failed after ".to_string();
                    push_decimal(&mut m, self.max_retries as u128);
                    m.append(" retries");
                    Err(m)
                }
            },
        }
    }
}

/// A task run again after failures: the bound on retries and the delay
/// before each, in seconds.
pub struct RetryableTask {
    pub max_retries: u32,
    pub retry_interval_secs: u64,
}

impl RetryableTask {
    /// A task with the default retry bound and delay.
    pub fn new() -> (r: Self)
        ensures
            r.max_retries == MAX_RETRY_COUNT,
            r.retry_interval_secs == RETRY_INTERVAL_SECS,
    {
        RetryableTask { max_retries: MAX_RETRY_COUNT, retry_interval_secs: RETRY_INTERVAL_SECS }
    }

    /// Books the result of run `current_retry` of the task (0 for the
    /// first): a success clears the retry count and the error; a failure is
    /// kept as the last error, the retry count advances, and the next run is
    /// returned while the bound allows it.
    pub fn execute_with_retry(&self, timers: &mut TimerState, current_retry: u32, result: Result<usize, String>) -> (r:
        Option<u32>)
        requires
            current_retry < u32::MAX,
        ensures
            result is Ok ==> r is None && final(timers).retry_count == 0 && final(timers).last_error is None,
            result matches Err(e) ==> final(timers).retry_count == current_retry + 1 && final(timers).last_error
                == Some(e) && r == (if current_retry + 1 <= self.max_retries {
                Some((current_retry + 1) as u32)
            } else {
                None::<u32>
            }),
            final(timers).cleanup_scheduled == old(timers).cleanup_scheduled,
    {
        match result {
            Ok(_) => {
                timers.retry_count = 0;
                timers.last_error = None;
                None
            },
            Err(e) => {
                timers.last_error = Some(e);
                let next_retry = current_retry + 1;
                timers.retry_count = next_retry;
                if next_retry <= self.max_retries {
                    Some(next_retry)
                } else {
                    None
                }
            },
        }
    }
}

/// Refunds the fee of every failed deployment to its owner's balance,
/// records the refund and marks the deployment `Refunded`; a deployment
/// without a fee is passed over. Returns how many were refunded.
pub fn process_failed_deployments(state: &mut FactoryState, ctx: &CallContext) -> (r: Result<usize, String>)
    requires
        old(state).wf(),
    ensures
        final(state).wf(),
        refunds_failed(*old(state), *final(state), *ctx, failed_records(*old(state))),
        r == Ok::<usize, String>(with_fee(failed_records(*old(state))).len() as usize),
{
    let (processed, _) = refund_failed_deployments(state, ctx);
    Ok(processed)
}

/// How long a deployment may stay unfinished before it is given up and
/// refunded: 24 hours, in nanoseconds.
pub const DEPLOYMENT_TIMEOUT_NS: u64 = 86_400_000_000_000;

/// The error recorded on a deployment given up for taking too long.
pub open spec fn timeout_text() -> Seq<char> {
    "Deployment timed out after 24 hours"@
}

/// Whether a deployment is paid for but not finished.
pub open spec fn in_progress(s: DeploymentStatus) -> bool {
    ||| s == DeploymentStatus::PaymentReceived
    ||| s == DeploymentStatus::CanisterCreated
    ||| s == DeploymentStatus::CodeInstalled
    ||| s == DeploymentStatus::Initialized
}

/// Whether a deployment, unfinished, was requested 24 hours or more
/// before `now`.
pub open spec fn timed_out(v: DeploymentRecordView, now: u64) -> bool {
    in_progress(v.status) && v.request_time <= now && now - v.request_time >= DEPLOYMENT_TIMEOUT_NS
}

/// The stored records of `s` that timed out at `now`, in their stored order.
pub open spec fn timed_out_records(s: FactoryState, now: u64) -> Seq<DeploymentRecordView> {
    record_list(s.deployment_records).filter(|v: DeploymentRecordView| timed_out(v, now))
}

/// The records after each record of `f` is marked failed for timing out
/// at `now`, in order.
pub open spec fn marked_timed_out(
    m: Map<Seq<char>, DeploymentRecordView>,
    f: Seq<DeploymentRecordView>,
    now: u64,
) -> Map<Seq<char>, DeploymentRecordView>
    decreases f.len(),
{
    if f.len() == 0 {
        m
    } else {
        let prev = marked_timed_out(m, f.drop_last(), now);
        let id = f.last().deployment_id;
        prev.insert(id, status_updated(prev[id], DeploymentStatus::DeploymentFailed, None, Some(timeout_text()), now))
    }
}

/// Gives up the deployments that are still unfinished 24 hours after they
/// were requested: each is marked `DeploymentFailed` with the timeout error,
/// so that the refund pass pays its fee back. Returns how many there were.
pub fn fail_timed_out_deployments(state: &mut FactoryState, now: u64) -> (r: usize)
    requires
        old(state).wf(),
    ensures
        final(state).wf(),
        final(state).same_but_records(*old(state)),
        records_view(final(state).deployment_records@) == marked_timed_out(
            records_view(old(state).deployment_records@),
            timed_out_records(*old(state), now),
            now,
        ),
        r == timed_out_records(*old(state), now).len(),
{
    let all = state.get_all_deployment_records();
    let ghost f = views(all@);
    let ghost pred = |v: DeploymentRecordView| timed_out(v, now);
    let ghost old_recs = records_view(state.deployment_records@);
    proof {
        lemma_records_view(state.deployment_records@);
    }
    let mut count: usize = 0;
    let mut i: usize = 0;
    while i < all.len()
        invariant
            f == views(all@),
            f == record_list(old(state).deployment_records),
            all_stored(*old(state), all@),
            pred == (|v: DeploymentRecordView| timed_out(v, now)),
            old_recs == records_view(old(state).deployment_records@),
            i <= all@.len(),
            state.wf(),
            state.same_but_records(*old(state)),
            state.deployment_records@.dom() == old(state).deployment_records@.dom(),
            records_view(state.deployment_records@) == marked_timed_out(old_recs, f.take(i as int).filter(pred), now),
            count == f.take(i as int).filter(pred).len(),
            count <= i,
        decreases all@.len() - i,
    {
        let record = &all[i];
        let ghost t = f.take(i as int);
        proof {
            assert(f.take(i + 1) =~= t.push(f[i as int]));
            t.lemma_filter_push(f[i as int], pred);
            assert(f[i as int] == all@[i as int]@);
            assert(state.deployment_records@.contains_key(record.deployment_id@));
        }
        let unfinished = match record.status {
            DeploymentStatus::PaymentReceived | DeploymentStatus::CanisterCreated | DeploymentStatus::CodeInstalled
            | DeploymentStatus::Initialized => true,
            _ => false,
        };
        proof {
            assert(unfinished == in_progress(f[i as int].status));
        }
        if unfinished && record.request_time <= now && now - record.request_time >= DEPLOYMENT_TIMEOUT_NS {
            let ghost before = *state;
            proof {
                assert(pred(f[i as int]));
                assert(t.filter(pred).push(f[i as int]).drop_last() =~= t.filter(pred));
            }
            let _ = state.update_deployment_status(&record.deployment_id, DeploymentStatus::DeploymentFailed, None,
                Some("Deployment timed out after 24 hours".to_string()), now);
            proof {
                lemma_records_view(state.deployment_records@);
                lemma_records_view(before.deployment_records@);
                assert(state.deployment_records@.dom() =~= before.deployment_records@.dom());
                assert(records_view(state.deployment_records@) =~= marked_timed_out(old_recs, f.take(i + 1).filter(pred), now));
            }
            count = count + 1;
        } else {
            proof {
                assert(!pred(f[i as int]));
            }
        }
        i = i + 1;
    }
    proof {
        assert(f.take(all@.len() as int) =~= f);
    }
    count
}

/// Whether memory use calls for archiving in `s`.
pub open spec fn archiving_due(s: FactoryState) -> bool {
    memory_usage_percent(s.deployment_records@.dom().len()) > ARCHIVING_THRESHOLD_PERCENT
}

/// The records of `s` once old completed records are archived at `now`,
/// when memory use calls for it.
pub open spec fn records_after_archiving(s: FactoryState, now: u64) -> Map<Seq<char>, DeploymentRecord> {
    if archiving_due(s) {
        s.deployment_records@.remove_keys(archived_ids(completed_records(s.deployment_records), now))
    } else {
        s.deployment_records@
    }
}

/// The periodic cleanup: archives old records when memory use calls for
/// it, booking that task's result, gives up the deployments unfinished for
/// 24 hours, then refunds the failed deployments.
pub fn execute_cleanup_tasks(state: &mut FactoryState, timers: &mut TimerState, ctx: &CallContext) -> (r: Result<
    (),
    String,
>)
    requires
        old(state).wf(),
    ensures
        final(state).wf(),
        r is Ok,
        exists|mid: FactoryState| #[trigger] mid.deployment_records@ == records_after_archiving(*old(state), ctx.now)
            && mid.same_but_records(*old(state)) && exists|given_up: FactoryState| #[trigger] given_up.same_but_records(mid)
            && records_view(given_up.deployment_records@) == marked_timed_out(
            records_view(mid.deployment_records@),
            timed_out_records(mid, ctx.now),
            ctx.now,
        ) && refunds_failed(given_up, *final(state), *ctx, failed_records(given_up)),
        registry_unchanged(*old(state), *final(state)),
        archiving_due(*old(state)) ==> final(timers).retry_count == 0 && final(timers).last_error is None,
        !archiving_due(*old(state)) ==> final(timers).retry_count == old(timers).retry_count
            && final(timers).last_error == old(timers).last_error,
        final(timers).cleanup_scheduled == old(timers).cleanup_scheduled,
{
    let manager = TimerTaskManager::new();
    if state.should_archive_records() {
        let count = state.archive_old_deployment_records(ctx.now);
        let _ = manager.execute_with_retry(timers, "record_archiving", Ok(count));
    }
    let ghost mid = *state;
    let _ = fail_timed_out_deployments(state, ctx.now);
    let ghost given_up = *state;
    let _ = process_failed_deployments(state, ctx);
    proof {
        assert(mid.deployment_records@ == records_after_archiving(*old(state), ctx.now));
        assert(given_up.same_but_records(mid));
    }
    Ok(())
}

/// Archives old completed records when memory use calls for it.
pub fn archive_old_records(state: &mut FactoryState, now: u64) -> (r: Result<(), String>)
    requires
        old(state).wf(),
    ensures
        final(state).wf(),
        r is Ok,
        final(state).deployment_records@ == records_after_archiving(*old(state), now),
        final(state).same_but_records(*old(state)),
{
    if state.should_archive_records() {
        let _ = state.archive_old_deployment_records(now);
    }
    Ok(())
}

} // verus!
