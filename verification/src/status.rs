//! The states that a migration job, and each task of it, goes through.

use vstd::prelude::*;

verus! {

/// State of a migration task: the work that a job has to do on one database.
#[derive(Clone, Copy, Debug, PartialEq, Eq, Structural)]
pub enum MigrationTaskStatus {
    /// Nothing was done yet.
    Enqueued,
    /// The migration was tried and rolled back, and would have worked.
    DryRunSuccess,
    /// The migration was tried and rolled back, and would have failed.
    DryRunFailure,
    /// The migration is being applied.
    Run,
    /// The migration was applied.
    Success,
    /// The migration could not be applied.
    Failure,
}

impl MigrationTaskStatus {
    /// No further work is going to happen on a task in this state.
    pub open spec fn finished(self) -> bool {
        self is Success || self is Failure
    }

    pub fn is_finished(&self) -> (finished: bool)
        ensures
            finished == self.finished(),
            finished <==> *self is Success || *self is Failure,
    {
        matches!(self, MigrationTaskStatus::Success | MigrationTaskStatus::Failure)
    }

    pub fn is_enqueued(&self) -> (enqueued: bool)
        ensures
            enqueued == (*self is Enqueued),
    {
        matches!(self, MigrationTaskStatus::Enqueued)
    }
}

/// State of a migration job.
#[derive(Clone, Copy, Debug, PartialEq, Eq, Structural)]
pub enum MigrationJobStatus {
    /// Waiting for every task to pass its dry run.
    WaitingDryRun,
    /// Every task passed its dry run.
    DryRunSuccess,
    /// Some task failed its dry run.
    DryRunFailure,
    /// Waiting for every task to apply the migration.
    WaitingRun,
    /// The migration was applied everywhere.
    RunSuccess,
    /// The migration could not be applied.
    RunFailure,
    /// A worker is moving the job to another state. Transient: never persisted.
    WaitingTransition,
}

impl MigrationJobStatus {
    /// The job is over.
    pub open spec fn finished(self) -> bool {
        self is RunSuccess || self is RunFailure
    }

    /// The state of the tasks that still have to be worked on while the job waits in this state:
    /// a job that is not waiting for its tasks has none.
    pub open spec fn awaited(self) -> Option<MigrationTaskStatus> {
        match self {
            MigrationJobStatus::WaitingDryRun => Some(MigrationTaskStatus::Enqueued),
            MigrationJobStatus::WaitingRun => Some(MigrationTaskStatus::DryRunSuccess),
            _ => None,
        }
    }

    pub fn is_finished(&self) -> (finished: bool)
        ensures
            finished == self.finished(),
            finished <==> *self is RunSuccess || *self is RunFailure,
    {
        matches!(self, MigrationJobStatus::RunSuccess | MigrationJobStatus::RunFailure)
    }

    pub fn is_dry_run_success(&self) -> (success: bool)
        ensures
            success == (*self is DryRunSuccess),
    {
        matches!(self, MigrationJobStatus::DryRunSuccess)
    }

    pub fn is_waiting_run(&self) -> (waiting: bool)
        ensures
            waiting == (*self is WaitingRun),
    {
        matches!(self, MigrationJobStatus::WaitingRun)
    }

    /// The state of the tasks to fetch next for a job in this state, if it waits for tasks.
    pub fn awaited_task_status(&self) -> (status: Option<MigrationTaskStatus>)
        ensures
            status == self.awaited(),
            *self is WaitingDryRun <==> status == Some(MigrationTaskStatus::Enqueued),
            *self is WaitingRun <==> status == Some(MigrationTaskStatus::DryRunSuccess),
            status is Some ==> *self is WaitingDryRun || *self is WaitingRun,
    {
        match self {
            MigrationJobStatus::WaitingDryRun => Some(MigrationTaskStatus::Enqueued),
            MigrationJobStatus::WaitingRun => Some(MigrationTaskStatus::DryRunSuccess),
            _ => None,
        }
    }
}

} // verus!
