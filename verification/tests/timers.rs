use hunterfi::cycles::{finish_cycles_refill, CyclesConfig, CyclesManager, CyclesSummary};
use hunterfi::intervals::{TimerConfig, TimerRegistry, NANOS_PER_SEC};
use hunterfi::principal::Principal;
use hunterfi::state::{CallContext, FactoryState, RETENTION_PERIOD_NS};
use hunterfi::timer::{
    archive_old_records, execute_cleanup_tasks, fail_timed_out_deployments, RetryableTask, TimerAction, TimerState, TimerTaskManager,
    CLEANUP_INTERVAL_SECS, DEPLOYMENT_TIMEOUT_NS,
};
use hunterfi::types::{DeploymentRecord, DeploymentStatus, StrategyType};

fn p(b: u8) -> Principal {
    Principal::from_slice(&[b, 5])
}

fn record(id: &str, status: DeploymentStatus, fee: u64) -> DeploymentRecord {
    DeploymentRecord {
        deployment_id: id.to_string(),
        strategy_type: StrategyType::SelfHedging,
        owner: p(1),
        fee_amount: fee,
        request_time: 0,
        status,
        canister_id: None,
        config_data: Vec::new(),
        error_message: None,
        last_updated: 0,
    }
}

#[test]
fn timer_state_schedules_and_cancels() {
    let mut t = TimerState::new();
    assert_eq!(t.get_timer_status(), "Timer status: active=false, retry_count=0, last_error=none");
    assert_eq!(t.schedule_timers(), TimerAction::ScheduleCleanup(CLEANUP_INTERVAL_SECS));
    assert!(t.cleanup_scheduled);
    assert!(t.cancel_timers());
    assert!(!t.cancel_timers());
    t.retry_count = 3;
    t.last_error = Some("disk full".to_string());
    assert_eq!(t.get_timer_status(), "Timer status: active=false, retry_count=3, last_error=disk full");
    assert_eq!(t.reset_timers(), TimerAction::RescheduleCleanup(300));
    assert!(t.cleanup_scheduled);
    assert_eq!(t.retry_count, 0);
    assert_eq!(t.restart_cleanup_timer(), TimerAction::ScheduleCleanup(300));
}

#[test]
fn task_manager_books_results() {
    let m = TimerTaskManager::new();
    let mut t = TimerState::new();
    assert_eq!(m.execute_with_retry(&mut t, "archive", Err("oops".to_string())), Err("Retry needed for task archive".to_string()));
    assert_eq!(t.retry_count, 1);
    assert_eq!(t.last_error, Some("oops".to_string()));
    assert_eq!(m.execute_with_retry(&mut t, "archive", Ok(4)), Ok(4));
    assert_eq!(t.retry_count, 0);
    assert_eq!(t.last_error, None);
}

#[test]
fn retryable_task_stops_after_the_bound() {
    let task = RetryableTask::new();
    let mut t = TimerState::new();
    assert_eq!(task.execute_with_retry(&mut t, 0, Err("a".to_string())), Some(1));
    assert_eq!(task.execute_with_retry(&mut t, 4, Err("b".to_string())), Some(5));
    assert_eq!(task.execute_with_retry(&mut t, 5, Err("c".to_string())), None);
    assert_eq!(t.retry_count, 6);
    assert_eq!(task.execute_with_retry(&mut t, 2, Ok(1)), None);
    assert_eq!(t.retry_count, 0);
}

#[test]
fn cleanup_refunds_failed_deployments() {
    let mut s = FactoryState::new();
    s.store_deployment_record(record("f", DeploymentStatus::DeploymentFailed, 70));
    s.store_deployment_record(record("ok", DeploymentStatus::Deployed, 70));
    let mut t = TimerState::new();
    let ctx = CallContext { now: RETENTION_PERIOD_NS + 5, caller: p(9), canister_id: p(8) };
    assert_eq!(execute_cleanup_tasks(&mut s, &mut t, &ctx), Ok(()));
    assert_eq!(s.get_deployment_record("f").unwrap().status, DeploymentStatus::Refunded);
    assert_eq!(s.ledger.get_user_account(&p(1)).balance, 70);
    // Memory use is far below the threshold: nothing is archived.
    assert!(s.get_deployment_record("ok").is_some());
    assert_eq!(archive_old_records(&mut s, ctx.now), Ok(()));
    assert!(s.get_deployment_record("ok").is_some());
}

#[test]
fn cycles_thresholds_and_refill() {
    let mut m = CyclesManager::new();
    assert_eq!(m.request_cycles_refill(), Err("Cycles config not initialized".to_string()));
    assert!(m.is_below_warning_threshold(499_999_999_999));
    assert!(!m.is_below_warning_threshold(500_000_000_000));
    assert!(m.is_below_critical_threshold(99_999_999_999));
    m.init(CyclesConfig { warning_threshold: 10, critical_threshold: 5, refill_amount: 1000, refill_source: None });
    assert_eq!(m.request_cycles_refill(), Err("No refill source configured".to_string()));
    m.init(CyclesConfig { warning_threshold: 10, critical_threshold: 5, refill_amount: 1000, refill_source: Some(p(3)) });
    assert_eq!(m.request_cycles_refill(), Ok((p(3), 1000)));
    assert_eq!(
        m.get_summary(7),
        Ok(CyclesSummary { balance: 7, warning_threshold: 10, critical_threshold: 5, is_below_warning: true, is_below_critical: false })
    );
    m.critical_threshold_set(8);
    assert!(m.is_below_critical_threshold(7));
    m.warning_threshold_set(1);
    assert!(!m.is_below_warning_threshold(7));
    assert_eq!(finish_cycles_refill(Ok(())), Ok(()));
    assert_eq!(finish_cycles_refill(Err("rejected".to_string())), Err("Failed to request cycles: rejected".to_string()));
}

#[test]
fn interval_timers_fire_once_per_period() {
    let mut r = TimerRegistry::new();
    let cfg = TimerConfig { id: "exec".to_string(), interval_seconds: 60, enabled: true };
    assert_eq!(r.set_timer(&cfg, 1_000), None);
    r.register_timer("exec", 7);
    assert!(!r.should_trigger("exec", 60, 1_000));
    assert_eq!(r.time_until_next_execution("exec", 60, 1_000 + 30 * NANOS_PER_SEC), 30);
    assert!(r.should_trigger("exec", 60, 1_000 + 60 * NANOS_PER_SEC));
    assert!(!r.should_trigger("exec", 60, 1_000 + 60 * NANOS_PER_SEC));
    assert_eq!(r.time_until_next_execution("exec", 60, 1_000 + 200 * NANOS_PER_SEC), 0);
    assert_eq!(r.set_timer(&cfg, 5_000), Some(7));
    assert_eq!(r.clear_timer("exec"), None);
    r.update_last_execution("other", 42);
    assert!(!r.should_trigger("other", 1, 42));
    assert!(r.should_trigger("never", 0, 0));
}

#[test]
fn a_disabled_timer_does_not_count_as_run() {
    let mut r = TimerRegistry::new();
    let cfg = TimerConfig { id: "t".to_string(), interval_seconds: 10, enabled: false };
    r.set_timer(&cfg, 50 * NANOS_PER_SEC);
    assert!(r.should_trigger("t", 10, 50 * NANOS_PER_SEC));
}

#[test]
fn deployments_unfinished_for_a_day_are_refunded() {
    let mut s = FactoryState::new();
    s.store_deployment_record(record("stuck", DeploymentStatus::CanisterCreated, 40));
    s.store_deployment_record(record("young", DeploymentStatus::PaymentReceived, 40));
    let mut young = s.get_deployment_record("young").unwrap();
    young.request_time = 10;
    s.store_deployment_record(young);
    let mut t = TimerState::new();
    let ctx = CallContext { now: DEPLOYMENT_TIMEOUT_NS + 5, caller: p(9), canister_id: p(8) };
    assert_eq!(execute_cleanup_tasks(&mut s, &mut t, &ctx), Ok(()));
    let stuck = s.get_deployment_record("stuck").unwrap();
    assert_eq!(stuck.status, DeploymentStatus::Refunded);
    assert_eq!(stuck.error_message, Some("Deployment timed out after 24 hours".to_string()));
    assert_eq!(s.get_deployment_record("young").unwrap().status, DeploymentStatus::PaymentReceived);
    assert_eq!(s.ledger.get_user_account(&p(1)).balance, 40);
    // A second pass finds nothing more to give up or refund.
    assert_eq!(fail_timed_out_deployments(&mut s, DEPLOYMENT_TIMEOUT_NS + 6), 0);
    assert_eq!(execute_cleanup_tasks(&mut s, &mut t, &ctx), Ok(()));
    assert_eq!(s.ledger.get_user_account(&p(1)).balance, 40);
}
