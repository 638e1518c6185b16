//! The workers that the scheduler starts.
//!
//! A worker talks to databases and waits for backups, which is not done here. What is here is
//! what a worker decides between those: each value stands for a worker at some point of its run,
//! and each method that consumes it for what happens next. The last one gives the [`WorkResult`]
//! that the worker reports.

use std::sync::Arc;

use vstd::prelude::*;

use crate::job::{MigrationTask, TaskView};
use crate::status::{MigrationJobStatus, MigrationTaskStatus};

verus! {

/// What became of the backup of a database.
#[derive(Clone, Copy, Debug, PartialEq, Eq, Structural)]
pub enum Backup {
    /// The database is not backed up, so there was nothing to wait for.
    Disabled,
    /// The current state of the database is in the backup.
    Confirmed,
    /// The current state of the database could not be backed up.
    Failed,
}

/// What a [`WorkResult`] stands for.
pub enum WorkResultView {
    Task { old_status: MigrationTaskStatus, task: TaskView, error: Option<Seq<char>> },
    Job { status: MigrationJobStatus },
}

/// What a worker reports to the scheduler.
#[derive(Debug)]
pub enum WorkResult {
    /// A task was worked on.
    Task {
        /// State of the task when the worker was started.
        old_status: MigrationTaskStatus,
        task: MigrationTask,
        error: Option<String>,
    },
    /// The current job goes to another state.
    Job { status: MigrationJobStatus },
}

/// The text of an error, if there is one.
pub open spec fn error_text(error: Option<String>) -> Option<Seq<char>> {
    match error {
        Some(text) => Some(text@),
        None => None,
    }
}

impl View for WorkResult {
    type V = WorkResultView;

    open spec fn view(&self) -> WorkResultView {
        match *self {
            WorkResult::Task { old_status, task, error } => WorkResultView::Task {
                old_status,
                task: task@,
                error: error_text(error),
            },
            WorkResult::Job { status } => WorkResultView::Job { status },
        }
    }
}

/// What has to be done to the database of a task before the task can be stepped.
#[derive(Clone, Copy, Debug, PartialEq, Eq, Structural)]
pub enum TaskSetup {
    /// Add the task to the pending tasks of the database.
    Enqueue,
    /// Let the task, which is there already, go on with the run.
    StepRun,
}

/// What a [`TaskWork`] stands for.
pub struct TaskWorkView<P> {
    pub task: TaskView,
    pub job_status: MigrationJobStatus,
    pub migration: P,
}

impl<P> TaskWorkView<P> {
    /// The task is in a state that can be worked on.
    pub open spec fn runnable(self) -> bool {
        ||| self.task.status is Enqueued
        ||| self.task.status is DryRunSuccess && self.job_status is WaitingRun
    }

    /// Writes to the database of the task are blocked before the worker is started.
    pub open spec fn blocks_writes(self) -> bool {
        self.task.status is Enqueued
    }

    /// The worker stepped the task, which left it in state `new_status`.
    pub open spec fn stepped(
        self,
        new_status: MigrationTaskStatus,
        error: Option<Seq<char>>,
    ) -> SteppedTaskView {
        SteppedTaskView {
            old_status: self.task.status,
            task: self.task.with_status(new_status),
            error,
        }
    }
}

/// A worker that is about to step a task. It keeps a worker slot until it reports.
#[derive(Debug)]
pub struct TaskWork<P> {
    task: MigrationTask,
    job_status: MigrationJobStatus,
    migration: Arc<P>,
}

impl<P> View for TaskWork<P> {
    type V = TaskWorkView<P>;

    closed spec fn view(&self) -> TaskWorkView<P> {
        TaskWorkView { task: self.task@, job_status: self.job_status, migration: *self.migration }
    }
}

impl<P> TaskWork<P> {
    /// A worker for `task`, of a job in state `job_status` that performs `migration`.
    pub fn new(task: MigrationTask, job_status: MigrationJobStatus, migration: Arc<P>) -> (work:
        TaskWork<P>)
        ensures
            work@ == (TaskWorkView { task: task@, job_status, migration: *migration }),
    {
        TaskWork { task, job_status, migration }
    }

    pub fn task(&self) -> (task: &MigrationTask)
        ensures
            task@ == self@.task,
    {
        &self.task
    }

    pub fn migration(&self) -> (migration: Arc<P>)
        ensures
            *migration == self@.migration,
    {
        self.migration.clone()
    }

    /// Tells whether writes to the database have to be blocked before the worker is started.
    pub fn blocks_writes(&self) -> (blocks: bool)
        ensures
            blocks == self@.blocks_writes(),
            blocks <==> self@.task.status is Enqueued,
    {
        self.task.status() == MigrationTaskStatus::Enqueued
    }

    /// Tells whether the worker first has to wait until no transaction is ongoing. Writes are
    /// blocked by then, so none starts after that.
    pub fn drains_transactions(&self) -> (drains: bool)
        ensures
            drains == (self@.task.status is Enqueued),
    {
        self.task.status().is_enqueued()
    }

    /// Tells whether the task is in a state that can be worked on.
    pub fn is_runnable(&self) -> (runnable: bool)
        ensures
            runnable == self@.runnable(),
            runnable <==> self@.task.status is Enqueued || (self@.task.status is DryRunSuccess
                && self@.job_status is WaitingRun),
    {
        match self.task.status() {
            MigrationTaskStatus::Enqueued => true,
            MigrationTaskStatus::DryRunSuccess => self.job_status.is_waiting_run(),
            _ => false,
        }
    }

    /// What to do to the database of the task, in the transaction in which the task is stepped.
    pub fn setup(&self) -> (setup: TaskSetup)
        requires
            self@.runnable(),
        ensures
            setup is Enqueue <==> self@.task.status is Enqueued,
            setup is StepRun <==> self@.task.status is DryRunSuccess,
    {
        if self.task.status().is_enqueued() {
            TaskSetup::Enqueue
        } else {
            TaskSetup::StepRun
        }
    }

    /// Goes on after the task was stepped, which left it in state `new_status`.
    pub fn step(self, new_status: MigrationTaskStatus, error: Option<String>) -> (stepped:
        SteppedTask)
        ensures
            stepped@ == self@.stepped(new_status, error_text(error)),
            stepped@.old_status == self@.task.status,
            stepped@.task.status == new_status,
            stepped@.task.namespace == self@.task.namespace,
            stepped@.task.task_id == self@.task.task_id,
            stepped@.task.job_id == self@.task.job_id,
            error is None <==> stepped@.error is None,
            error matches Some(text) ==> stepped@.error == Some(text@),
    {
        let old_status = self.task.status();
        let mut task = self.task;
        task.set_status(new_status);
        SteppedTask { old_status, task, error }
    }
}

/// What a [`SteppedTask`] stands for.
pub struct SteppedTaskView {
    pub old_status: MigrationTaskStatus,
    pub task: TaskView,
    pub error: Option<Seq<char>>,
}

impl SteppedTaskView {
    /// Writes to the database of the task are allowed again.
    pub open spec fn releases_writes(self) -> bool {
        self.task.status.finished()
    }
}

/// The state in which a worker reports a task that it found in state `old_status`, and left in
/// state `stepped`.
pub open spec fn reported_task_status(
    old_status: MigrationTaskStatus,
    stepped: MigrationTaskStatus,
    backup: Backup,
) -> MigrationTaskStatus {
    if backup is Failed {
        old_status
    } else {
        stepped
    }
}

/// A worker that has stepped its task, and is about to wait for the backup of the database.
#[derive(Debug)]
pub struct SteppedTask {
    old_status: MigrationTaskStatus,
    task: MigrationTask,
    error: Option<String>,
}

impl View for SteppedTask {
    type V = SteppedTaskView;

    closed spec fn view(&self) -> SteppedTaskView {
        SteppedTaskView {
            old_status: self.old_status,
            task: self.task@,
            error: error_text(self.error),
        }
    }
}

impl SteppedTask {
    pub fn task(&self) -> (task: &MigrationTask)
        ensures
            task@ == self@.task,
    {
        &self.task
    }

    /// Tells whether writes to the database are allowed again.
    pub fn releases_writes(&self) -> (releases: bool)
        ensures
            releases == self@.releases_writes(),
            releases <==> self@.task.status is Success || self@.task.status is Failure,
    {
        self.task.status().is_finished()
    }

    /// Reports the task. If the database could not be backed up, the task is reported in the
    /// state in which it was before: it is going to be scheduled again.
    pub fn finish(self, backup: Backup) -> (result: WorkResult)
        ensures
            result@ == (WorkResultView::Task {
                old_status: self@.old_status,
                task: self@.task.with_status(
                    reported_task_status(self@.old_status, self@.task.status, backup),
                ),
                error: self@.error,
            }),
            match result {
                WorkResult::Task { old_status, task, error } => {
                    &&& old_status == self@.old_status
                    &&& !(backup is Failed) ==> task@.status == self@.task.status
                    &&& backup is Failed ==> task@.status == self@.old_status
                    &&& task@.namespace == self@.task.namespace
                    &&& task@.task_id == self@.task.task_id
                    &&& task@.job_id == self@.task.job_id
                    &&& error is None <==> self@.error is None
                    &&& error matches Some(text) ==> self@.error == Some(text@)
                },
                WorkResult::Job { .. } => false,
            },
    {
        let old_status = self.old_status;
        let mut task = self.task;
        if backup == Backup::Failed {
            task.set_status(old_status);
        }
        WorkResult::Task { old_status, task, error: self.error }
    }
}

/// What a [`JobWork`] stands for.
pub enum JobWorkView<P> {
    DryRun { job_id: int, old_status: MigrationJobStatus },
    StartRun { job_id: int },
    Schema { job_id: int, schema: Seq<char>, migration: P },
}

impl<P> JobWorkView<P> {
    /// The worker keeps a worker slot until it reports.
    pub open spec fn keeps_slot(self) -> bool {
        self is Schema
    }

    /// The state of the job that the worker reports, given what the store answers if it is asked
    /// to step the job, and what becomes of the backups of the schema database and of the meta
    /// store.
    pub open spec fn reported(
        self,
        stepped: Option<MigrationJobStatus>,
        schema_backup: Backup,
        meta_backup: Backup,
    ) -> MigrationJobStatus {
        match self {
            JobWorkView::DryRun { old_status, .. } => SteppedJobView::dry_run_recorded(
                old_status,
                stepped,
            ).reported(meta_backup),
            JobWorkView::StartRun { .. } => SteppedJobView::run_started().reported(meta_backup),
            JobWorkView::Schema { .. } => if schema_backup is Failed {
                MigrationJobStatus::WaitingRun
            } else {
                SteppedJobView::schema_migrated().reported(meta_backup)
            },
        }
    }
}

/// A worker that is about to move the current job to another state.
#[derive(Debug)]
pub enum JobWork<P> {
    /// Every task passed its dry run.
    DryRun(DryRunWork),
    /// The run is about to start.
    StartRun(StartRunWork),
    /// Every task applied the migration: the schema database is next.
    Schema(SchemaWork<P>),
}

impl<P> View for JobWork<P> {
    type V = JobWorkView<P>;

    open spec fn view(&self) -> JobWorkView<P> {
        match *self {
            JobWork::DryRun(work) => JobWorkView::DryRun {
                job_id: work.job_id as int,
                old_status: work.old_status,
            },
            JobWork::StartRun(work) => JobWorkView::StartRun { job_id: work.job_id as int },
            JobWork::Schema(work) => JobWorkView::Schema {
                job_id: work.job_id as int,
                schema: work.schema@,
                migration: *work.migration,
            },
        }
    }
}

impl<P> JobWork<P> {
    /// Tells whether the worker keeps the worker slot for which it was started. The others give
    /// it back at once.
    pub fn keeps_slot(&self) -> (keeps: bool)
        ensures
            keeps == self@.keeps_slot(),
            keeps <==> *self is Schema,
    {
        matches!(self, JobWork::Schema(_))
    }
}

/// A worker that is about to record that every task of the job passed its dry run.
#[derive(Debug)]
pub struct DryRunWork {
    pub job_id: i64,
    /// State of the job when the worker was started.
    pub old_status: MigrationJobStatus,
}

impl DryRunWork {
    /// Goes on after the store was asked to step the job. It answers with the new state of the
    /// job, or with `None` if it left the job as it was. Only a success has to be backed up.
    pub fn step(self, stepped: Option<MigrationJobStatus>) -> (job: SteppedJob)
        ensures
            job@ == SteppedJobView::dry_run_recorded(self.old_status, stepped),
            stepped matches Some(status) ==> job@.status == status,
            stepped is None ==> job@.status == self.old_status,
            job@.awaits_backup <==> job@.status is DryRunSuccess,
            job@.fallback == self.old_status,
    {
        let status = match stepped {
            Some(status) => status,
            None => self.old_status,
        };
        SteppedJob {
            status,
            awaits_backup: status.is_dry_run_success(),
            fallback: self.old_status,
        }
    }
}

/// A worker that is about to start the run.
#[derive(Debug)]
pub struct StartRunWork {
    pub job_id: i64,
}

impl StartRunWork {
    /// Gives the state to persist for the job, and to back up.
    pub fn step(self) -> (job: SteppedJob)
        ensures
            job@ == SteppedJobView::run_started(),
            job@.status is WaitingRun,
            job@.awaits_backup,
            job@.fallback is DryRunSuccess,
    {
        SteppedJob {
            status: MigrationJobStatus::WaitingRun,
            awaits_backup: true,
            fallback: MigrationJobStatus::DryRunSuccess,
        }
    }
}

/// The version that is written to a schema database at version `schema_version` when the migration
/// of the job is applied to it. The version tells which job did so last: if it is this job, the
/// migration is not applied, and nothing is written.
pub open spec fn schema_update(job_id: int, schema_version: int) -> Option<int> {
    if schema_version == job_id {
        None
    } else {
        Some(job_id)
    }
}

/// A worker that is about to apply the migration to the schema database. It keeps a worker slot
/// until it reports.
#[derive(Debug)]
pub struct SchemaWork<P> {
    pub job_id: i64,
    pub schema: String,
    pub migration: Arc<P>,
}

impl<P> SchemaWork<P> {
    /// Tells whether the migration has to be applied to a schema database at the given version.
    pub fn must_migrate(&self, schema_version: i64) -> (must: bool)
        ensures
            must == (schema_update(self.job_id as int, schema_version as int) is Some),
            must <==> schema_version != self.job_id,
    {
        schema_version != self.job_id
    }

    /// The version to write to a schema database at the given version, in the transaction in which
    /// the migration is applied to it. `None` if it was applied before.
    pub fn version_to_write(&self, schema_version: i64) -> (version: Option<i64>)
        ensures
            version is Some <==> schema_update(self.job_id as int, schema_version as int) is Some,
            version matches Some(version) ==> schema_update(
                self.job_id as int,
                schema_version as int,
            ) == Some(version as int),
            version == (if schema_version == self.job_id {
                None
            } else {
                Some(self.job_id)
            }),
    {
        if self.must_migrate(schema_version) {
            Some(self.job_id)
        } else {
            None
        }
    }

    /// Goes on after the backup of the schema database. Without it the worker reports at once,
    /// and the job stays in the run. Otherwise gives the state to persist for the job, and to
    /// back up.
    pub fn step(self, schema_backup: Backup) -> (outcome: Result<SteppedJob, WorkResult>)
        ensures
            outcome is Err <==> schema_backup is Failed,
            outcome matches Err(result) ==> result@ == (WorkResultView::Job {
                status: MigrationJobStatus::WaitingRun,
            }),
            outcome matches Ok(job) ==> job@ == SteppedJobView::schema_migrated(),
            outcome matches Err(WorkResult::Job { status }) ==> status is WaitingRun,
            outcome matches Err(result) ==> result is Job,
            outcome matches Ok(job) ==> job@.status is RunSuccess && job@.awaits_backup
                && job@.fallback is WaitingRun,
    {
        if schema_backup == Backup::Failed {
            Err(WorkResult::Job { status: MigrationJobStatus::WaitingRun })
        } else {
            Ok(
                SteppedJob {
                    status: MigrationJobStatus::RunSuccess,
                    awaits_backup: true,
                    fallback: MigrationJobStatus::WaitingRun,
                },
            )
        }
    }
}

/// What a [`SteppedJob`] stands for.
pub struct SteppedJobView {
    pub status: MigrationJobStatus,
    pub awaits_backup: bool,
    /// State to report if the backup fails.
    pub fallback: MigrationJobStatus,
}

impl SteppedJobView {
    /// The store was asked to record that every task of the job passed its dry run. It answered
    /// with the new state of the job, or left the job as it was. Only a success is backed up; if
    /// that fails, the job is not stepped, and the store is asked again.
    pub open spec fn dry_run_recorded(
        old_status: MigrationJobStatus,
        stepped: Option<MigrationJobStatus>,
    ) -> SteppedJobView {
        let status = match stepped {
            Some(status) => status,
            None => old_status,
        };
        SteppedJobView {
            status,
            awaits_backup: status is DryRunSuccess,
            fallback: old_status,
        }
    }

    /// The run was started. If that cannot be backed up, it is started again.
    pub open spec fn run_started() -> SteppedJobView {
        SteppedJobView {
            status: MigrationJobStatus::WaitingRun,
            awaits_backup: true,
            fallback: MigrationJobStatus::DryRunSuccess,
        }
    }

    /// The migration was applied to the schema database. If that cannot be backed up, the job
    /// stays in the run.
    pub open spec fn schema_migrated() -> SteppedJobView {
        SteppedJobView {
            status: MigrationJobStatus::RunSuccess,
            awaits_backup: true,
            fallback: MigrationJobStatus::WaitingRun,
        }
    }

    /// The state that the worker reports.
    pub open spec fn reported(self, backup: Backup) -> MigrationJobStatus {
        if self.awaits_backup && backup is Failed {
            self.fallback
        } else {
            self.status
        }
    }
}

/// A worker that has moved the job to another state, and is about to wait for the backup of the
/// meta store.
#[derive(Debug)]
pub struct SteppedJob {
    status: MigrationJobStatus,
    awaits_backup: bool,
    fallback: MigrationJobStatus,
}

impl View for SteppedJob {
    type V = SteppedJobView;

    closed spec fn view(&self) -> SteppedJobView {
        SteppedJobView {
            status: self.status,
            awaits_backup: self.awaits_backup,
            fallback: self.fallback,
        }
    }
}

impl SteppedJob {
    pub fn status(&self) -> (status: MigrationJobStatus)
        ensures
            status == self@.status,
    {
        self.status
    }

    /// Tells whether the meta store has to be backed up before the worker reports.
    pub fn awaits_backup(&self) -> (awaits: bool)
        ensures
            awaits == self@.awaits_backup,
    {
        self.awaits_backup
    }

    /// Reports the state of the job. If the meta store could not be backed up, the job is
    /// reported in the fallback state.
    pub fn finish(self, backup: Backup) -> (result: WorkResult)
        ensures
            result@ == (WorkResultView::Job { status: self@.reported(backup) }),
            match result {
                WorkResult::Job { status } => {
                    &&& self@.awaits_backup && backup is Failed ==> status == self@.fallback
                    &&& !(self@.awaits_backup && backup is Failed) ==> status == self@.status
                },
                WorkResult::Task { .. } => false,
            },
    {
        let status = if self.awaits_backup && backup == Backup::Failed {
            self.fallback
        } else {
            self.status
        };
        WorkResult::Job { status }
    }
}

} // verus!
