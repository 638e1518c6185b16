use std::sync::Arc;

use migration_scheduler::job::{MigrationJob, MigrationTask, TaskProgress};
use migration_scheduler::scheduler::{
    Enqueue, Scheduler, SchedulerMessage, StepAction, StepEvent, MAX_CONCURRENT_JOBS,
    TASK_BATCH_SIZE,
};
use migration_scheduler::status::{MigrationJobStatus, MigrationTaskStatus};
use migration_scheduler::work::{JobWork, WorkResult};

fn job(
    status: MigrationJobStatus,
    counts: &[(MigrationTaskStatus, usize)],
) -> MigrationJob<String> {
    let mut progress = TaskProgress::new();
    for (status, count) in counts {
        progress.set(*status, *count);
    }
    MigrationJob::new("schema".to_string(), 7, status, Arc::new("migrate".to_string()), progress)
}

fn task(task_id: i64, status: MigrationTaskStatus) -> MigrationTask {
    MigrationTask::new(format!("ns{task_id}"), task_id, 7, status)
}

fn task_result(
    task_id: i64,
    old_status: MigrationTaskStatus,
    new_status: MigrationTaskStatus,
) -> WorkResult {
    WorkResult::Task { old_status, task: task(task_id, new_status), error: None }
}

/// A scheduler that got `job`, and what it does with it.
fn scheduler_with(job: MigrationJob<String>) -> (Scheduler<String>, Enqueue<String>) {
    let mut scheduler = Scheduler::new();
    assert!(matches!(
        scheduler.step(StepEvent::Slot),
        StepAction::Enqueue(Enqueue::FetchJob)
    ));
    let enqueue = scheduler.enqueue_job(Some(job));
    (scheduler, enqueue)
}

fn current_status(scheduler: &Scheduler<String>) -> MigrationJobStatus {
    scheduler.current_job().unwrap().status()
}

fn message(schema: &str) -> SchedulerMessage<String> {
    SchedulerMessage::ScheduleMigration {
        schema: schema.to_string(),
        migration: Arc::new("migrate".to_string()),
    }
}

#[test]
fn new_scheduler_looks_for_a_job() {
    let mut scheduler: Scheduler<String> = Scheduler::new();
    assert!(scheduler.branches().slot);
    assert!(!scheduler.branches().worker);
    assert!(scheduler.current_job().is_none());
    assert_eq!(scheduler.permits().available_permits(), MAX_CONCURRENT_JOBS);
    assert_eq!(MAX_CONCURRENT_JOBS, 10);
    assert!(matches!(
        scheduler.step(StepEvent::Slot),
        StepAction::Enqueue(Enqueue::FetchJob)
    ));
    assert!(scheduler.branches().slot);
}

#[test]
fn no_pending_job_puts_the_scheduler_to_rest() {
    let mut scheduler: Scheduler<String> = Scheduler::new();
    scheduler.step(StepEvent::Slot);
    assert!(matches!(
        scheduler.enqueue_job(None),
        Enqueue::Start { job: None, task: None }
    ));
    assert!(!scheduler.branches().slot);
    assert!(matches!(scheduler.step(StepEvent::Closed), StepAction::Exit));
}

#[test]
fn closed_channel_does_not_stop_the_work() {
    // there is work to do
    let mut scheduler: Scheduler<String> = Scheduler::new();
    assert!(matches!(scheduler.step(StepEvent::Closed), StepAction::Continue));
    assert!(scheduler.branches().slot);
    // there is a worker
    let passed = [(MigrationTaskStatus::DryRunSuccess, 1)];
    let (mut scheduler, _) = scheduler_with(job(MigrationJobStatus::WaitingDryRun, &passed));
    assert!(!scheduler.branches().slot);
    assert!(matches!(scheduler.step(StepEvent::Closed), StepAction::Continue));
    assert!(scheduler.branches().worker);
}

#[test]
fn message_wakes_the_scheduler_up() {
    let mut scheduler: Scheduler<String> = Scheduler::new();
    scheduler.step(StepEvent::Slot);
    scheduler.enqueue_job(None);
    match scheduler.step(StepEvent::Message(message("schema"))) {
        StepAction::Register(registration) => {
            assert_eq!(registration.schema, "schema");
            assert_eq!(*registration.migration, "migrate");
        }
        _ => panic!("expected a registration"),
    }
    assert!(scheduler.branches().slot);
}

#[test]
fn message_leaves_the_flag_if_no_worker_runs() {
    let pending = [(MigrationTaskStatus::Enqueued, 1)];
    let (mut scheduler, _) = scheduler_with(job(MigrationJobStatus::WaitingDryRun, &pending));
    assert!(scheduler.branches().slot);
    assert!(!scheduler.branches().worker);
    let registration = scheduler.handle_msg(message("other"));
    assert_eq!(registration.schema, "other");
    // the current job is gone on with
    assert!(scheduler.branches().slot);
    assert!(matches!(scheduler.enqueue_work(), Enqueue::FetchBatch { job_id: 7, .. }));
}

#[test]
fn message_does_not_raise_the_flag_while_a_job_is_driven() {
    let passed = [(MigrationTaskStatus::DryRunSuccess, 1)];
    let (mut scheduler, _) = scheduler_with(job(MigrationJobStatus::WaitingDryRun, &passed));
    assert!(!scheduler.branches().slot);
    scheduler.handle_msg(message("other"));
    assert!(!scheduler.branches().slot);
    assert!(scheduler.branches().worker);
}

#[test]
fn message_lowers_the_flag_while_a_worker_runs() {
    let pending = [(MigrationTaskStatus::Enqueued, 2)];
    let (mut scheduler, _) = scheduler_with(job(MigrationJobStatus::WaitingDryRun, &pending));
    scheduler.enqueue_batch(vec![
        task(1, MigrationTaskStatus::Enqueued),
        task(2, MigrationTaskStatus::Enqueued),
    ]);
    assert!(scheduler.branches().slot);
    scheduler.handle_msg(message("other"));
    assert!(!scheduler.branches().slot);
    // the worker wakes the scheduler up
    scheduler.step(StepEvent::Worker(task_result(
        2,
        MigrationTaskStatus::Enqueued,
        MigrationTaskStatus::DryRunSuccess,
    )));
    scheduler.record_task(MigrationTaskStatus::Enqueued, MigrationTaskStatus::DryRunSuccess);
    assert!(scheduler.branches().slot);
}

#[test]
fn registration_carries_the_migration() {
    let scheduler: Scheduler<String> = Scheduler::new();
    let registration = scheduler
        .register_migration_job("schema".to_string(), Arc::new("create table test (c)".to_string()));
    assert_eq!(registration.schema, "schema");
    assert_eq!(*registration.migration, "create table test (c)");
}

#[test]
fn enqueued_tasks_are_fetched_for_the_dry_run() {
    let pending = [(MigrationTaskStatus::Enqueued, 60)];
    let (scheduler, enqueue) = scheduler_with(job(MigrationJobStatus::WaitingDryRun, &pending));
    match enqueue {
        Enqueue::FetchBatch { job_id, status, limit } => {
            assert_eq!(job_id, 7);
            assert_eq!(status, MigrationTaskStatus::Enqueued);
            assert_eq!(limit, 50);
            assert_eq!(limit, TASK_BATCH_SIZE);
        }
        _ => panic!("expected a batch to be fetched"),
    }
    assert_eq!(scheduler.current_job().unwrap().count_pending_tasks(), 60);
    assert!(scheduler.branches().slot);
}

#[test]
fn dry_run_tasks_are_fetched_for_the_run() {
    let pending = [(MigrationTaskStatus::DryRunSuccess, 2), (MigrationTaskStatus::Success, 1)];
    let (scheduler, enqueue) = scheduler_with(job(MigrationJobStatus::WaitingRun, &pending));
    assert!(matches!(
        enqueue,
        Enqueue::FetchBatch { job_id: 7, status: MigrationTaskStatus::DryRunSuccess, limit: 50 }
    ));
    assert_eq!(scheduler.current_job().unwrap().count_pending_tasks(), 2);
}

#[test]
fn batch_is_started_from_its_end() {
    let pending = [(MigrationTaskStatus::Enqueued, 3)];
    let (mut scheduler, _) = scheduler_with(job(MigrationJobStatus::WaitingDryRun, &pending));
    let batch = vec![
        task(1, MigrationTaskStatus::Enqueued),
        task(2, MigrationTaskStatus::Enqueued),
        task(3, MigrationTaskStatus::Enqueued),
    ];
    let mut started = Vec::new();
    let mut enqueue = scheduler.enqueue_batch(batch);
    for _ in 0..3 {
        match enqueue {
            Enqueue::Start { job: None, task: Some(work) } => {
                assert_eq!(*work.migration(), "migrate");
                started.push(work.task().task_id());
            }
            _ => panic!("expected a task to be started"),
        }
        assert!(scheduler.branches().slot);
        assert!(scheduler.branches().worker);
        enqueue = scheduler.enqueue_work();
    }
    assert_eq!(started, vec![3, 2, 1]);
    assert!(matches!(enqueue, Enqueue::FetchBatch { .. }));
    // all that is left is in flight
    assert!(matches!(
        scheduler.enqueue_batch(Vec::new()),
        Enqueue::Start { job: None, task: None }
    ));
    assert!(!scheduler.branches().slot);
    assert!(scheduler.branches().worker);
}

#[test]
fn dry_run_success_is_recorded_once_every_task_passed() {
    let passed = [(MigrationTaskStatus::DryRunSuccess, 2)];
    let (scheduler, enqueue) = scheduler_with(job(MigrationJobStatus::WaitingDryRun, &passed));
    match enqueue {
        Enqueue::Start { job: Some(JobWork::DryRun(work)), task: None } => {
            assert_eq!(work.job_id, 7);
            assert_eq!(work.old_status, MigrationJobStatus::WaitingDryRun);
        }
        _ => panic!("expected the dry run to be recorded"),
    }
    assert_eq!(current_status(&scheduler), MigrationJobStatus::WaitingTransition);
    assert!(!scheduler.branches().slot);
    assert!(scheduler.branches().worker);
}

#[test]
fn run_is_started_after_the_dry_run() {
    let passed = [(MigrationTaskStatus::DryRunSuccess, 2)];
    let (scheduler, enqueue) = scheduler_with(job(MigrationJobStatus::DryRunSuccess, &passed));
    match enqueue {
        Enqueue::Start { job: Some(JobWork::StartRun(work)), task: None } => {
            assert_eq!(work.job_id, 7);
        }
        _ => panic!("expected the run to be started"),
    }
    assert_eq!(current_status(&scheduler), MigrationJobStatus::WaitingTransition);
    assert!(!scheduler.branches().slot);
}

#[test]
fn schema_is_migrated_once_every_task_is_done() {
    let done = [(MigrationTaskStatus::Success, 2)];
    let (mut scheduler, enqueue) = scheduler_with(job(MigrationJobStatus::WaitingRun, &done));
    match enqueue {
        Enqueue::Start { job: Some(JobWork::Schema(work)), task: None } => {
            assert_eq!(work.job_id, 7);
            assert_eq!(work.schema, "schema");
            assert_eq!(*work.migration, "migrate");
        }
        _ => panic!("expected the schema to be migrated"),
    }
    assert_eq!(current_status(&scheduler), MigrationJobStatus::WaitingTransition);
    // nothing is started until that is complete
    assert!(!scheduler.branches().slot);
    assert!(matches!(
        scheduler.enqueue_work(),
        Enqueue::Start { job: None, task: None }
    ));
    assert!(!scheduler.branches().slot);
    assert_eq!(current_status(&scheduler), MigrationJobStatus::WaitingTransition);
}

#[test]
fn job_without_tasks_is_moved_on() {
    let (_, enqueue) = scheduler_with(job(MigrationJobStatus::WaitingDryRun, &[]));
    assert!(matches!(
        enqueue,
        Enqueue::Start { job: Some(JobWork::DryRun(_)), task: None }
    ));
}

#[test]
fn leftover_task_is_started_with_the_run() {
    let passed = [(MigrationTaskStatus::Enqueued, 2)];
    let (mut scheduler, _) = scheduler_with(job(MigrationJobStatus::WaitingDryRun, &passed));
    scheduler.enqueue_batch(vec![
        task(1, MigrationTaskStatus::Enqueued),
        task(2, MigrationTaskStatus::Enqueued),
    ]);
    scheduler.step(StepEvent::Worker(WorkResult::Job {
        status: MigrationJobStatus::DryRunSuccess,
    }));
    match scheduler.enqueue_work() {
        Enqueue::Start { job: Some(JobWork::StartRun(_)), task: Some(work) } => {
            assert_eq!(work.task().task_id(), 1);
        }
        _ => panic!("expected two workers"),
    }
    assert!(!scheduler.branches().slot);
    assert_eq!(current_status(&scheduler), MigrationJobStatus::WaitingTransition);
}

#[test]
fn finished_job_makes_room_for_the_next() {
    let done = [(MigrationTaskStatus::Success, 1)];
    let (mut scheduler, _) = scheduler_with(job(MigrationJobStatus::WaitingRun, &done));
    assert!(scheduler.branches().worker);
    let action = scheduler.step(StepEvent::Worker(WorkResult::Job {
        status: MigrationJobStatus::RunSuccess,
    }));
    assert!(matches!(action, StepAction::Continue));
    assert!(scheduler.current_job().is_none());
    assert!(scheduler.branches().slot);
    assert!(!scheduler.branches().worker);
}

#[test]
fn unfinished_job_goes_on() {
    let done = [(MigrationTaskStatus::Success, 1)];
    let (mut scheduler, _) = scheduler_with(job(MigrationJobStatus::WaitingRun, &done));
    scheduler.step(StepEvent::Worker(WorkResult::Job { status: MigrationJobStatus::WaitingRun }));
    assert_eq!(current_status(&scheduler), MigrationJobStatus::WaitingRun);
    assert!(scheduler.branches().slot);
    // tried again
    assert!(matches!(
        scheduler.enqueue_work(),
        Enqueue::Start { job: Some(JobWork::Schema(_)), task: None }
    ));
}

#[test]
fn reported_task_is_recorded() {
    let pending = [(MigrationTaskStatus::Enqueued, 1)];
    let (mut scheduler, _) = scheduler_with(job(MigrationJobStatus::WaitingDryRun, &pending));
    scheduler.enqueue_batch(vec![task(1, MigrationTaskStatus::Enqueued)]);
    let result = WorkResult::Task {
        old_status: MigrationTaskStatus::Enqueued,
        task: task(1, MigrationTaskStatus::DryRunFailure),
        error: Some("syntax error".to_string()),
    };
    match scheduler.step(StepEvent::Worker(result)) {
        StepAction::Record { old_status, task, error } => {
            assert_eq!(old_status, MigrationTaskStatus::Enqueued);
            assert_eq!(task.status(), MigrationTaskStatus::DryRunFailure);
            assert_eq!(task.namespace(), "ns1");
            assert_eq!(error.as_deref(), Some("syntax error"));
            assert_eq!(scheduler.record_task(old_status, task.status()), Some(0));
        }
        _ => panic!("expected a task to be recorded"),
    }
    let job = scheduler.current_job().unwrap();
    assert_eq!(job.progress(MigrationTaskStatus::Enqueued), 0);
    assert_eq!(job.progress(MigrationTaskStatus::DryRunFailure), 1);
    assert!(!job.is_steppable());
    assert!(!scheduler.branches().worker);
}

#[test]
fn slots_in_use_are_read_from_the_semaphore() {
    let pending = [(MigrationTaskStatus::Enqueued, 3)];
    let (mut scheduler, _) = scheduler_with(job(MigrationJobStatus::WaitingDryRun, &pending));
    scheduler.enqueue_batch(vec![task(1, MigrationTaskStatus::Enqueued)]);
    let first = scheduler.permits().try_acquire_owned().unwrap();
    let second = scheduler.permits().try_acquire_owned().unwrap();
    let third = scheduler.permits().try_acquire_owned().unwrap();
    scheduler.step(StepEvent::Worker(task_result(
        1,
        MigrationTaskStatus::Enqueued,
        MigrationTaskStatus::DryRunSuccess,
    )));
    // two are pending, and more are in flight: there is nothing to start
    assert_eq!(
        scheduler.record_task(MigrationTaskStatus::Enqueued, MigrationTaskStatus::DryRunSuccess),
        Some(3)
    );
    assert!(!scheduler.branches().slot);
    drop(first);
    drop(second);
    // one is pending, and as many are in flight
    assert_eq!(
        scheduler.record_task(MigrationTaskStatus::Enqueued, MigrationTaskStatus::DryRunSuccess),
        Some(1)
    );
    assert!(!scheduler.branches().slot);
    drop(third);
    // none is pending, and none is in flight: the job is to be moved on
    assert_eq!(
        scheduler.record_task(MigrationTaskStatus::Enqueued, MigrationTaskStatus::DryRunSuccess),
        Some(0)
    );
    assert!(scheduler.branches().slot);
    assert!(matches!(
        scheduler.enqueue_work(),
        Enqueue::Start { job: Some(JobWork::DryRun(_)), task: None }
    ));
}

#[test]
fn extra_slots_are_refused() {
    let pending = [(MigrationTaskStatus::Enqueued, 1)];
    let (mut scheduler, _) = scheduler_with(job(MigrationJobStatus::WaitingDryRun, &pending));
    scheduler.permits().add_permits(1);
    assert_eq!(
        scheduler.record_task(MigrationTaskStatus::Enqueued, MigrationTaskStatus::DryRunSuccess),
        None
    );
    assert_eq!(scheduler.current_job().unwrap().progress(MigrationTaskStatus::Enqueued), 1);
}

#[test]
fn slots_that_are_not_available_are_in_use() {
    let record = |available: usize| {
        let pending = [(MigrationTaskStatus::Enqueued, 4)];
        let (mut scheduler, _) = scheduler_with(job(MigrationJobStatus::WaitingDryRun, &pending));
        let in_flight = scheduler.record_task_with_available(
            MigrationTaskStatus::Enqueued,
            MigrationTaskStatus::DryRunSuccess,
            available,
        );
        let pending = scheduler.current_job().unwrap().count_pending_tasks();
        (in_flight, pending, scheduler.branches().slot)
    };
    assert_eq!(record(10), (Some(0), 3, true));
    assert_eq!(record(8), (Some(2), 3, true));
    assert_eq!(record(7), (Some(3), 3, false));
    assert_eq!(record(0), (Some(10), 3, false));
    assert_eq!(record(11), (None, 4, true));
}

#[test]
fn work_left_after_a_task() {
    let left = |enqueued: usize, batch: usize, in_flight: usize| {
        let pending = [(MigrationTaskStatus::Enqueued, enqueued + 1)];
        let (mut scheduler, _) = scheduler_with(job(MigrationJobStatus::WaitingDryRun, &pending));
        let tasks =
            (0..batch + 1).map(|id| task(id as i64, MigrationTaskStatus::Enqueued)).collect();
        scheduler.enqueue_batch(tasks);
        scheduler.record_task_with(
            MigrationTaskStatus::Enqueued,
            MigrationTaskStatus::DryRunSuccess,
            in_flight,
        );
        scheduler.branches().slot
    };
    assert!(left(0, 0, 0));
    assert!(!left(0, 0, 1));
    assert!(left(1, 0, 0));
    assert!(!left(1, 0, 1));
    assert!(left(2, 0, 1));
    assert!(!left(2, 0, 10));
    assert!(left(2, 1, 10));
}

#[test]
fn rolled_back_task_stays_pending() {
    let pending = [(MigrationTaskStatus::DryRunSuccess, 1)];
    let (mut scheduler, _) = scheduler_with(job(MigrationJobStatus::WaitingRun, &pending));
    scheduler.enqueue_batch(vec![task(1, MigrationTaskStatus::DryRunSuccess)]);
    let status = MigrationTaskStatus::DryRunSuccess;
    scheduler.step(StepEvent::Worker(task_result(1, status, status)));
    assert_eq!(scheduler.record_task(status, status), Some(0));
    assert_eq!(scheduler.current_job().unwrap().progress(status), 1);
    assert!(scheduler.branches().slot);
}

#[test]
fn failures_cannot_be_stepped_over() {
    let failed = [(MigrationTaskStatus::DryRunFailure, 1)];
    assert!(!job(MigrationJobStatus::WaitingDryRun, &failed).is_steppable());
    assert!(job(MigrationJobStatus::WaitingRun, &failed).is_steppable());
    let failed = [(MigrationTaskStatus::Failure, 1)];
    assert!(!job(MigrationJobStatus::WaitingRun, &failed).is_steppable());
    assert!(!job(MigrationJobStatus::DryRunFailure, &[]).is_steppable());
    assert!(!job(MigrationJobStatus::RunSuccess, &[]).is_steppable());
    assert!(!job(MigrationJobStatus::RunFailure, &[]).is_steppable());
    assert!(job(MigrationJobStatus::DryRunSuccess, &[]).is_steppable());
    assert!(job(MigrationJobStatus::WaitingTransition, &[]).is_steppable());
}

#[test]
fn progress_of_a_job() {
    let counts = [(MigrationTaskStatus::Success, 2), (MigrationTaskStatus::Run, 1)];
    let job = job(MigrationJobStatus::WaitingRun, &counts);
    assert!(!job.progress_all(MigrationTaskStatus::Success));
    assert!(!job.progress_all(MigrationTaskStatus::Run));
    assert_eq!(job.progress(MigrationTaskStatus::Success), 2);
    assert_eq!(job.count_pending_tasks(), 0);
    assert_eq!(job.schema(), "schema");
    assert_eq!(job.job_id(), 7);
    assert_eq!(*job.migration(), "migrate");
}
