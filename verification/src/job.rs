//! Migration jobs, and the tasks that they are made of.

use std::sync::Arc;

use vstd::prelude::*;

use crate::status::{MigrationJobStatus, MigrationTaskStatus};

verus! {

/// What a [`MigrationTask`] stands for.
pub struct TaskView {
    pub namespace: Seq<char>,
    pub task_id: int,
    pub job_id: int,
    pub status: MigrationTaskStatus,
}

impl TaskView {
    /// The same task, in another state.
    pub open spec fn with_status(self, status: MigrationTaskStatus) -> TaskView {
        TaskView { status, ..self }
    }
}

/// The part of a migration job that concerns one namespace.
#[derive(Debug)]
pub struct MigrationTask {
    namespace: String,
    task_id: i64,
    job_id: i64,
    status: MigrationTaskStatus,
}

impl View for MigrationTask {
    type V = TaskView;

    closed spec fn view(&self) -> TaskView {
        TaskView {
            namespace: self.namespace@,
            task_id: self.task_id as int,
            job_id: self.job_id as int,
            status: self.status,
        }
    }
}

impl MigrationTask {
    pub fn new(
        namespace: String,
        task_id: i64,
        job_id: i64,
        status: MigrationTaskStatus,
    ) -> (task: MigrationTask)
        ensures
            task@ == (TaskView {
                namespace: namespace@,
                task_id: task_id as int,
                job_id: job_id as int,
                status,
            }),
    {
        MigrationTask { namespace, task_id, job_id, status }
    }

    /// Name of the namespace that the task migrates.
    pub fn namespace(&self) -> (namespace: String)
        ensures
            namespace@ == self@.namespace,
    {
        self.namespace.clone()
    }

    pub fn task_id(&self) -> (task_id: i64)
        ensures
            task_id == self@.task_id,
    {
        self.task_id
    }

    /// The job that the task is a part of.
    pub fn job_id(&self) -> (job_id: i64)
        ensures
            job_id == self@.job_id,
    {
        self.job_id
    }

    pub fn status(&self) -> (status: MigrationTaskStatus)
        ensures
            status == self@.status,
    {
        self.status
    }

    pub(crate) fn set_status(&mut self, status: MigrationTaskStatus)
        ensures
            final(self)@ == old(self)@.with_status(status),
            final(self)@.status == status,
            final(self)@.namespace == old(self)@.namespace,
            final(self)@.task_id == old(self)@.task_id,
            final(self)@.job_id == old(self)@.job_id,
    {
        self.status = status;
    }
}

/// How many tasks of a job are in each state.
#[derive(Debug)]
pub struct TaskProgress {
    enqueued: usize,
    dry_run_success: usize,
    dry_run_failure: usize,
    run: usize,
    success: usize,
    failure: usize,
}

impl View for TaskProgress {
    type V = Map<MigrationTaskStatus, nat>;

    closed spec fn view(&self) -> Map<MigrationTaskStatus, nat> {
        Map::new(|status: MigrationTaskStatus| true, |status: MigrationTaskStatus| self.count(status))
    }
}

impl TaskProgress {
    spec fn count(&self, status: MigrationTaskStatus) -> nat {
        match status {
            MigrationTaskStatus::Enqueued => self.enqueued as nat,
            MigrationTaskStatus::DryRunSuccess => self.dry_run_success as nat,
            MigrationTaskStatus::DryRunFailure => self.dry_run_failure as nat,
            MigrationTaskStatus::Run => self.run as nat,
            MigrationTaskStatus::Success => self.success as nat,
            MigrationTaskStatus::Failure => self.failure as nat,
        }
    }

    /// The progress of a job without tasks.
    pub fn new() -> (progress: TaskProgress)
        ensures
            forall|status: MigrationTaskStatus| #[trigger] progress@[status] == 0,
    {
        TaskProgress {
            enqueued: 0,
            dry_run_success: 0,
            dry_run_failure: 0,
            run: 0,
            success: 0,
            failure: 0,
        }
    }

    /// How many tasks are in the given state.
    pub fn get(&self, status: MigrationTaskStatus) -> (count: usize)
        ensures
            count == self@[status],
    {
        match status {
            MigrationTaskStatus::Enqueued => self.enqueued,
            MigrationTaskStatus::DryRunSuccess => self.dry_run_success,
            MigrationTaskStatus::DryRunFailure => self.dry_run_failure,
            MigrationTaskStatus::Run => self.run,
            MigrationTaskStatus::Success => self.success,
            MigrationTaskStatus::Failure => self.failure,
        }
    }

    /// Changes how many tasks are in the given state.
    pub fn set(&mut self, status: MigrationTaskStatus, count: usize)
        ensures
            final(self)@ == old(self)@.insert(status, count as nat),
    {
        match status {
            MigrationTaskStatus::Enqueued => self.enqueued = count,
            MigrationTaskStatus::DryRunSuccess => self.dry_run_success = count,
            MigrationTaskStatus::DryRunFailure => self.dry_run_failure = count,
            MigrationTaskStatus::Run => self.run = count,
            MigrationTaskStatus::Success => self.success = count,
            MigrationTaskStatus::Failure => self.failure = count,
        }
        assert(self@ =~= old(self)@.insert(status, count as nat));
    }
}

/// What a [`MigrationJob`] stands for.
pub struct JobView<P> {
    pub schema: Seq<char>,
    pub job_id: int,
    pub status: MigrationJobStatus,
    pub migration: P,
    /// How many tasks are in each state.
    pub progress: Map<MigrationTaskStatus, nat>,
}

impl<P> JobView<P> {
    /// The same job, in another state.
    pub open spec fn with_status(self, status: MigrationJobStatus) -> JobView<P> {
        JobView { status, ..self }
    }

    /// Every task of the job is in the given state.
    pub open spec fn all_in(self, status: MigrationTaskStatus) -> bool {
        forall|other: MigrationTaskStatus|
            other != status ==> #[trigger] self.progress[other] == 0
    }

    /// How many tasks are left to be worked on before the job can leave its state.
    pub open spec fn pending(self) -> nat {
        match self.status.awaited() {
            Some(status) => self.progress[status],
            None => 0,
        }
    }

    /// How many tasks the job has.
    pub open spec fn tasks(self) -> nat {
        self.progress[MigrationTaskStatus::Enqueued]
            + self.progress[MigrationTaskStatus::DryRunSuccess]
            + self.progress[MigrationTaskStatus::DryRunFailure]
            + self.progress[MigrationTaskStatus::Run]
            + self.progress[MigrationTaskStatus::Success]
            + self.progress[MigrationTaskStatus::Failure]
    }

    /// A task can go from one state to the other: there is one in the first, and one more in the
    /// second can be counted.
    pub open spec fn can_move(self, from: MigrationTaskStatus, to: MigrationTaskStatus) -> bool {
        &&& self.progress[from] > 0
        &&& from != to ==> self.progress[to] < usize::MAX
    }

    /// The same job, after a task went from one state to the other.
    pub open spec fn moved(self, from: MigrationTaskStatus, to: MigrationTaskStatus) -> JobView<P> {
        let without = self.progress.insert(from, (self.progress[from] - 1) as nat);
        JobView { progress: without.insert(to, without[to] + 1), ..self }
    }

    /// The job can be driven further: it is in none of the failed or final states, and none of
    /// its tasks failed in the current phase.
    pub open spec fn steppable(self) -> bool {
        match self.status {
            MigrationJobStatus::WaitingDryRun =>
                self.progress[MigrationTaskStatus::DryRunFailure] == 0,
            MigrationJobStatus::WaitingRun => self.progress[MigrationTaskStatus::Failure] == 0,
            MigrationJobStatus::DryRunSuccess | MigrationJobStatus::WaitingTransition => true,
            _ => false,
        }
    }
}

/// A migration that is to be applied to a schema database and to every database that shares its
/// schema. The program that performs the migration, of type `P`, is carried along, not read.
#[derive(Debug)]
pub struct MigrationJob<P> {
    schema: String,
    job_id: i64,
    status: MigrationJobStatus,
    migration: Arc<P>,
    progress: TaskProgress,
}

impl<P> View for MigrationJob<P> {
    type V = JobView<P>;

    closed spec fn view(&self) -> JobView<P> {
        JobView {
            schema: self.schema@,
            job_id: self.job_id as int,
            status: self.status,
            migration: *self.migration,
            progress: self.progress@,
        }
    }
}

impl<P> MigrationJob<P> {
    pub fn new(
        schema: String,
        job_id: i64,
        status: MigrationJobStatus,
        migration: Arc<P>,
        progress: TaskProgress,
    ) -> (job: MigrationJob<P>)
        ensures
            job@ == (JobView {
                schema: schema@,
                job_id: job_id as int,
                status,
                migration: *migration,
                progress: progress@,
            }),
    {
        MigrationJob { schema, job_id, status, migration, progress }
    }

    /// Name of the schema database.
    pub fn schema(&self) -> (schema: String)
        ensures
            schema@ == self@.schema,
    {
        self.schema.clone()
    }

    pub fn job_id(&self) -> (job_id: i64)
        ensures
            job_id == self@.job_id,
    {
        self.job_id
    }

    pub fn status(&self) -> (status: MigrationJobStatus)
        ensures
            status == self@.status,
    {
        self.status
    }

    /// The program that performs the migration.
    pub fn migration(&self) -> (migration: Arc<P>)
        ensures
            *migration == self@.migration,
    {
        self.migration.clone()
    }

    /// How many tasks are in the given state.
    pub fn progress(&self, status: MigrationTaskStatus) -> (count: usize)
        ensures
            count == self@.progress[status],
    {
        self.progress.get(status)
    }

    /// Tells whether every task of the job is in the given state.
    pub fn progress_all(&self, status: MigrationTaskStatus) -> (all: bool)
        ensures
            all == self@.all_in(status),
    {
        let all = (status == MigrationTaskStatus::Enqueued
            || self.progress(MigrationTaskStatus::Enqueued) == 0)
            && (status == MigrationTaskStatus::DryRunSuccess
            || self.progress(MigrationTaskStatus::DryRunSuccess) == 0)
            && (status == MigrationTaskStatus::DryRunFailure
            || self.progress(MigrationTaskStatus::DryRunFailure) == 0)
            && (status == MigrationTaskStatus::Run
            || self.progress(MigrationTaskStatus::Run) == 0)
            && (status == MigrationTaskStatus::Success
            || self.progress(MigrationTaskStatus::Success) == 0)
            && (status == MigrationTaskStatus::Failure
            || self.progress(MigrationTaskStatus::Failure) == 0);
        assert forall|other: MigrationTaskStatus| all && other != status implies
            #[trigger] self@.progress[other] == 0 by {
            match other {
                MigrationTaskStatus::Enqueued => {},
                MigrationTaskStatus::DryRunSuccess => {},
                MigrationTaskStatus::DryRunFailure => {},
                MigrationTaskStatus::Run => {},
                MigrationTaskStatus::Success => {},
                MigrationTaskStatus::Failure => {},
            }
        }
        all
    }

    /// How many tasks are left to be worked on before the job can leave its state. A task counts
    /// until its outcome was reported, so those that are in flight are among them.
    pub fn count_pending_tasks(&self) -> (count: usize)
        ensures
            count == self@.pending(),
            self@.status is WaitingDryRun ==> count
                == self@.progress[MigrationTaskStatus::Enqueued],
            self@.status is WaitingRun ==> count
                == self@.progress[MigrationTaskStatus::DryRunSuccess],
            !(self@.status is WaitingDryRun || self@.status is WaitingRun) ==> count == 0,
    {
        match self.status.awaited_task_status() {
            Some(status) => self.progress(status),
            None => 0,
        }
    }

    /// Tells whether the job can be driven further.
    pub fn is_steppable(&self) -> (steppable: bool)
        ensures
            steppable == self@.steppable(),
    {
        match self.status {
            MigrationJobStatus::WaitingDryRun =>
                self.progress(MigrationTaskStatus::DryRunFailure) == 0,
            MigrationJobStatus::WaitingRun => self.progress(MigrationTaskStatus::Failure) == 0,
            MigrationJobStatus::DryRunSuccess | MigrationJobStatus::WaitingTransition => true,
            MigrationJobStatus::DryRunFailure
            | MigrationJobStatus::RunSuccess
            | MigrationJobStatus::RunFailure => false,
        }
    }

    pub(crate) fn set_status(&mut self, status: MigrationJobStatus)
        ensures
            final(self)@ == old(self)@.with_status(status),
            final(self)@.status == status,
            final(self)@.schema == old(self)@.schema,
            final(self)@.job_id == old(self)@.job_id,
            final(self)@.migration == old(self)@.migration,
            final(self)@.progress == old(self)@.progress,
    {
        self.status = status;
    }

    /// Counts a task that went from one state to the other.
    pub(crate) fn move_task(&mut self, from: MigrationTaskStatus, to: MigrationTaskStatus)
        requires
            old(self)@.can_move(from, to),
        ensures
            final(self)@ == old(self)@.moved(from, to),
            from != to ==> final(self)@.progress[from] == old(self)@.progress[from] - 1,
            from != to ==> final(self)@.progress[to] == old(self)@.progress[to] + 1,
            forall|status: MigrationTaskStatus|
                from == to || (status != from && status != to) ==> #[trigger] final(self)@.progress[status]
                    == old(self)@.progress[status],
            final(self)@.status == old(self)@.status,
            final(self)@.schema == old(self)@.schema,
            final(self)@.job_id == old(self)@.job_id,
            final(self)@.migration == old(self)@.migration,
    {
        let leaving: usize = self.progress.get(from);
        self.progress.set(from, leaving - 1);
        let entering: usize = self.progress.get(to);
        self.progress.set(to, entering + 1);
    }
}

} // verus!
