use std::sync::Arc;

use migration_scheduler::job::{MigrationTask, TaskProgress};
use migration_scheduler::status::{MigrationJobStatus, MigrationTaskStatus};
use migration_scheduler::work::{
    Backup, DryRunWork, JobWork, SchemaWork, StartRunWork, TaskSetup, TaskWork, WorkResult,
};

fn task(status: MigrationTaskStatus) -> MigrationTask {
    MigrationTask::new("ns".to_string(), 3, 7, status)
}

fn task_work(status: MigrationTaskStatus, job_status: MigrationJobStatus) -> TaskWork<String> {
    TaskWork::new(task(status), job_status, Arc::new("create table test (c)".to_string()))
}

fn job_status(result: WorkResult) -> MigrationJobStatus {
    match result {
        WorkResult::Job { status } => status,
        WorkResult::Task { .. } => panic!("expected the result of a job"),
    }
}

fn task_result(
    result: WorkResult,
) -> (MigrationTaskStatus, MigrationTaskStatus, Option<String>) {
    match result {
        WorkResult::Task { old_status, task, error } => {
            assert_eq!(task.namespace(), "ns");
            assert_eq!(task.task_id(), 3);
            assert_eq!(task.job_id(), 7);
            (old_status, task.status(), error)
        }
        WorkResult::Job { .. } => panic!("expected the result of a task"),
    }
}

#[test]
fn finished_states() {
    assert!(MigrationTaskStatus::Success.is_finished());
    assert!(MigrationTaskStatus::Failure.is_finished());
    assert!(!MigrationTaskStatus::Enqueued.is_finished());
    assert!(!MigrationTaskStatus::DryRunSuccess.is_finished());
    assert!(!MigrationTaskStatus::DryRunFailure.is_finished());
    assert!(!MigrationTaskStatus::Run.is_finished());
    assert!(MigrationTaskStatus::Enqueued.is_enqueued());
    assert!(!MigrationTaskStatus::Run.is_enqueued());
    assert!(MigrationJobStatus::RunSuccess.is_finished());
    assert!(MigrationJobStatus::RunFailure.is_finished());
    assert!(!MigrationJobStatus::WaitingRun.is_finished());
    assert!(!MigrationJobStatus::DryRunFailure.is_finished());
    assert!(MigrationJobStatus::WaitingRun.is_waiting_run());
    assert!(MigrationJobStatus::DryRunSuccess.is_dry_run_success());
}

#[test]
fn awaited_tasks() {
    assert_eq!(
        MigrationJobStatus::WaitingDryRun.awaited_task_status(),
        Some(MigrationTaskStatus::Enqueued)
    );
    assert_eq!(
        MigrationJobStatus::WaitingRun.awaited_task_status(),
        Some(MigrationTaskStatus::DryRunSuccess)
    );
    assert_eq!(MigrationJobStatus::WaitingTransition.awaited_task_status(), None);
}

#[test]
fn progress_is_counted_per_state() {
    let mut progress = TaskProgress::new();
    progress.set(MigrationTaskStatus::Run, 4);
    progress.set(MigrationTaskStatus::Failure, 2);
    progress.set(MigrationTaskStatus::Run, 5);
    assert_eq!(progress.get(MigrationTaskStatus::Run), 5);
    assert_eq!(progress.get(MigrationTaskStatus::Failure), 2);
    assert_eq!(progress.get(MigrationTaskStatus::Enqueued), 0);
    assert_eq!(progress.get(MigrationTaskStatus::DryRunSuccess), 0);
    assert_eq!(progress.get(MigrationTaskStatus::DryRunFailure), 0);
    assert_eq!(progress.get(MigrationTaskStatus::Success), 0);
}

#[test]
fn enqueued_task_is_set_up() {
    let work = task_work(MigrationTaskStatus::Enqueued, MigrationJobStatus::WaitingDryRun);
    assert!(work.blocks_writes());
    assert!(work.drains_transactions());
    assert!(work.is_runnable());
    assert_eq!(work.setup(), TaskSetup::Enqueue);
    assert_eq!(*work.migration(), "create table test (c)");
    assert_eq!(work.task().namespace(), "ns");
}

#[test]
fn dry_run_task_is_set_up_for_the_run() {
    let work = task_work(MigrationTaskStatus::DryRunSuccess, MigrationJobStatus::WaitingRun);
    assert!(!work.blocks_writes());
    assert!(!work.drains_transactions());
    assert!(work.is_runnable());
    assert_eq!(work.setup(), TaskSetup::StepRun);
}

#[test]
fn other_tasks_are_not_runnable() {
    let dry_run = MigrationJobStatus::WaitingDryRun;
    assert!(!task_work(MigrationTaskStatus::DryRunSuccess, dry_run).is_runnable());
    let run = MigrationJobStatus::WaitingRun;
    assert!(!task_work(MigrationTaskStatus::DryRunFailure, run).is_runnable());
    assert!(!task_work(MigrationTaskStatus::Run, run).is_runnable());
    assert!(!task_work(MigrationTaskStatus::Success, run).is_runnable());
    assert!(!task_work(MigrationTaskStatus::Failure, run).is_runnable());
}

#[test]
fn dry_run_keeps_writes_blocked() {
    let work = task_work(MigrationTaskStatus::Enqueued, MigrationJobStatus::WaitingDryRun);
    let stepped = work.step(MigrationTaskStatus::DryRunSuccess, None);
    assert!(!stepped.releases_writes());
    assert_eq!(stepped.task().status(), MigrationTaskStatus::DryRunSuccess);
    assert_eq!(
        task_result(stepped.finish(Backup::Confirmed)),
        (MigrationTaskStatus::Enqueued, MigrationTaskStatus::DryRunSuccess, None)
    );
}

#[test]
fn finished_task_releases_writes() {
    let work = task_work(MigrationTaskStatus::DryRunSuccess, MigrationJobStatus::WaitingRun);
    let stepped = work.step(MigrationTaskStatus::Failure, Some("no such table".to_string()));
    assert!(stepped.releases_writes());
    assert_eq!(
        task_result(stepped.finish(Backup::Disabled)),
        (
            MigrationTaskStatus::DryRunSuccess,
            MigrationTaskStatus::Failure,
            Some("no such table".to_string())
        )
    );
}

#[test]
fn failed_backup_rolls_the_task_back() {
    let work = task_work(MigrationTaskStatus::DryRunSuccess, MigrationJobStatus::WaitingRun);
    let stepped = work.step(MigrationTaskStatus::Success, Some("note".to_string()));
    // writes are allowed again all the same
    assert!(stepped.releases_writes());
    assert_eq!(
        task_result(stepped.finish(Backup::Failed)),
        (
            MigrationTaskStatus::DryRunSuccess,
            MigrationTaskStatus::DryRunSuccess,
            Some("note".to_string())
        )
    );
}

#[test]
fn dry_run_success_is_recorded() {
    let work = || DryRunWork { job_id: 7, old_status: MigrationJobStatus::WaitingDryRun };

    let stepped = work().step(Some(MigrationJobStatus::DryRunSuccess));
    assert!(stepped.awaits_backup());
    assert_eq!(stepped.status(), MigrationJobStatus::DryRunSuccess);
    assert_eq!(job_status(stepped.finish(Backup::Confirmed)), MigrationJobStatus::DryRunSuccess);

    let stepped = work().step(Some(MigrationJobStatus::DryRunSuccess));
    // the job is not stepped: it stays as it was
    assert_eq!(job_status(stepped.finish(Backup::Failed)), MigrationJobStatus::WaitingDryRun);

    // the store left the job as it was: there is nothing to back up
    let stepped = work().step(None);
    assert!(!stepped.awaits_backup());
    assert_eq!(job_status(stepped.finish(Backup::Failed)), MigrationJobStatus::WaitingDryRun);
}

#[test]
fn run_is_started() {
    let stepped = StartRunWork { job_id: 7 }.step();
    assert_eq!(stepped.status(), MigrationJobStatus::WaitingRun);
    assert!(stepped.awaits_backup());
    assert_eq!(job_status(stepped.finish(Backup::Disabled)), MigrationJobStatus::WaitingRun);

    let stepped = StartRunWork { job_id: 7 }.step();
    assert_eq!(job_status(stepped.finish(Backup::Failed)), MigrationJobStatus::DryRunSuccess);
}

fn schema_work() -> SchemaWork<String> {
    SchemaWork {
        job_id: 7,
        schema: "schema".to_string(),
        migration: Arc::new("create table test (c)".to_string()),
    }
}

#[test]
fn schema_is_migrated_once() {
    assert!(schema_work().must_migrate(0));
    assert!(schema_work().must_migrate(8));
    assert!(!schema_work().must_migrate(7));
    assert_eq!(schema_work().version_to_write(0), Some(7));
    assert_eq!(schema_work().version_to_write(8), Some(7));
    assert_eq!(schema_work().version_to_write(7), None);
}

#[test]
fn schema_run_is_reported() {
    let stepped = schema_work().step(Backup::Confirmed).unwrap();
    assert_eq!(stepped.status(), MigrationJobStatus::RunSuccess);
    assert!(stepped.awaits_backup());
    assert_eq!(job_status(stepped.finish(Backup::Confirmed)), MigrationJobStatus::RunSuccess);

    let stepped = schema_work().step(Backup::Disabled).unwrap();
    assert_eq!(job_status(stepped.finish(Backup::Failed)), MigrationJobStatus::WaitingRun);

    let result = schema_work().step(Backup::Failed).unwrap_err();
    assert_eq!(job_status(result), MigrationJobStatus::WaitingRun);
}

#[test]
fn only_the_schema_run_keeps_its_slot() {
    let dry_run: JobWork<String> = JobWork::DryRun(DryRunWork {
        job_id: 7,
        old_status: MigrationJobStatus::WaitingDryRun,
    });
    assert!(!dry_run.keeps_slot());
    let start_run: JobWork<String> = JobWork::StartRun(StartRunWork { job_id: 7 });
    assert!(!start_run.keeps_slot());
    assert!(JobWork::Schema(schema_work()).keeps_slot());
}
