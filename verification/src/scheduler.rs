//! The scheduler: which job is driven, which of its tasks are in flight, and what comes next.

use std::sync::Arc;

use tokio::sync::Semaphore;
use vstd::prelude::*;

use crate::job::{JobView, MigrationJob, MigrationTask, TaskView};
use crate::semaphore::initial_permits;
use crate::status::{MigrationJobStatus, MigrationTaskStatus};
use crate::work::{
    DryRunWork, JobWork, JobWorkView, SchemaWork, StartRunWork, TaskWork, TaskWorkView, WorkResult,
};

verus! {

/// How many workers can have a slot at a time.
pub const MAX_CONCURRENT_JOBS: usize = 10;

/// How many tasks are fetched at a time.
pub const TASK_BATCH_SIZE: usize = 50;

/// A request to the scheduler.
#[derive(Debug)]
pub enum SchedulerMessage<P> {
    /// Apply `migration` to `schema`, and to every database that shares its schema.
    ScheduleMigration { schema: String, migration: Arc<P> },
}

/// A job that is to be registered in the store.
#[derive(Debug)]
pub struct JobRegistration<P> {
    pub schema: String,
    pub migration: Arc<P>,
}

/// What can happen to a scheduler that is not busy.
#[derive(Debug)]
pub enum StepEvent<P> {
    /// A message was received.
    Message(SchedulerMessage<P>),
    /// A worker slot was acquired, for which the scheduler looks while it has work.
    Slot,
    /// A worker reported.
    Worker(WorkResult),
    /// No one is left to send a message, and every message was handled.
    Closed,
}

/// What has to be done after a step.
#[derive(Debug)]
pub enum StepAction<P> {
    /// Register the job, and tell the one who sent the message what came of it.
    Register(JobRegistration<P>),
    /// Use the slot.
    Enqueue(Enqueue<P>),
    /// Persist the state of the task, and its error. Then
    /// [`record_task`](Scheduler::record_task) counts it.
    Record { old_status: MigrationTaskStatus, task: MigrationTask, error: Option<String> },
    /// Nothing: step again.
    Continue,
    /// Nothing: do not step again.
    Exit,
}

/// How a worker slot is used.
#[derive(Debug)]
pub enum Enqueue<P> {
    /// Get the next pending job from the store, and go on with
    /// [`enqueue_job`](Scheduler::enqueue_job).
    FetchJob,
    /// Get at most `limit` pending tasks of the job, all in the given state, from the store, and
    /// go on with [`enqueue_batch`](Scheduler::enqueue_batch).
    FetchBatch { job_id: i64, status: MigrationTaskStatus, limit: usize },
    /// Start the workers. The slot is for the one that keeps it; it is given back if there is
    /// none.
    Start { job: Option<JobWork<P>>, task: Option<TaskWork<P>> },
}

/// What an [`Enqueue`] stands for.
pub enum EnqueueView<P> {
    FetchJob,
    FetchBatch { job_id: int, status: MigrationTaskStatus, limit: nat },
    Start { job: Option<JobWorkView<P>>, task: Option<TaskWorkView<P>> },
}

impl<P> View for Enqueue<P> {
    type V = EnqueueView<P>;

    open spec fn view(&self) -> EnqueueView<P> {
        match *self {
            Enqueue::FetchJob => EnqueueView::FetchJob,
            Enqueue::FetchBatch { job_id, status, limit } => EnqueueView::FetchBatch {
                job_id: job_id as int,
                status,
                limit: limit as nat,
            },
            Enqueue::Start { job, task } => EnqueueView::Start {
                job: match job {
                    Some(work) => Some(work@),
                    None => None,
                },
                task: match task {
                    Some(work) => Some(work@),
                    None => None,
                },
            },
        }
    }
}

/// What the scheduler can wait for, besides a message.
#[derive(Clone, Copy, Debug)]
pub struct Branches {
    /// A worker slot.
    pub slot: bool,
    /// The report of a worker.
    pub worker: bool,
}

/// What a [`Scheduler`] stands for.
pub struct SchedulerView<P> {
    /// How many workers were started and did not report yet.
    pub workers: nat,
    /// Tasks of the current job that were fetched and not started yet. The last one is next.
    pub batch: Seq<TaskView>,
    /// The job that is being driven.
    pub job: Option<JobView<P>>,
    pub has_work: bool,
}

impl<P> SchedulerView<P> {
    /// There is nothing to wait for besides a message: no slot is looked for, and no worker runs.
    pub open spec fn at_rest(self) -> bool {
        !self.has_work && self.workers == 0
    }

    /// The worker slot is given back without any use, and no other one is looked for.
    pub open spec fn idled(self) -> (SchedulerView<P>, EnqueueView<P>) {
        (
            SchedulerView { has_work: false, ..self },
            EnqueueView::Start { job: None, task: None },
        )
    }

    /// A worker is started to move the current job to another state. No slot is looked for until
    /// it reports.
    pub open spec fn in_transition(self) -> SchedulerView<P> {
        SchedulerView {
            workers: self.workers + 1,
            job: Some(self.job->0.with_status(MigrationJobStatus::WaitingTransition)),
            has_work: false,
            ..self
        }
    }

    /// The next task of the batch is started, if there is one, besides `work`. If there is none,
    /// the tasks in flight are waited for.
    pub open spec fn task_started(self, work: Option<JobWorkView<P>>) -> (
        SchedulerView<P>,
        EnqueueView<P>,
    ) {
        if self.batch.len() == 0 {
            (
                SchedulerView { has_work: false, ..self },
                EnqueueView::Start { job: work, task: None },
            )
        } else {
            (
                SchedulerView {
                    workers: self.workers + 1,
                    batch: self.batch.drop_last(),
                    ..self
                },
                EnqueueView::Start {
                    job: work,
                    task: Some(
                        TaskWorkView {
                            task: self.batch.last(),
                            job_status: self.job->0.status,
                            migration: self.job->0.migration,
                        },
                    ),
                },
            )
        }
    }

    /// A worker slot is used for the tasks in state `awaited`, which are fetched if need be. But
    /// once every task reached state `reached`, it is used to move the job on, by `work`.
    pub open spec fn phase_driven(
        self,
        awaited: MigrationTaskStatus,
        reached: MigrationTaskStatus,
        work: JobWorkView<P>,
    ) -> (SchedulerView<P>, EnqueueView<P>) {
        let job = self.job->0;
        if job.all_in(reached) {
            (self.in_transition(), EnqueueView::Start { job: Some(work), task: None })
        } else if self.batch.len() == 0 {
            (
                self,
                EnqueueView::FetchBatch {
                    job_id: job.job_id,
                    status: awaited,
                    limit: TASK_BATCH_SIZE as nat,
                },
            )
        } else {
            self.task_started(None)
        }
    }

    /// A worker slot is used for the current job.
    pub open spec fn job_driven(self) -> (SchedulerView<P>, EnqueueView<P>) {
        let job = self.job->0;
        match job.status {
            MigrationJobStatus::WaitingDryRun => self.phase_driven(
                MigrationTaskStatus::Enqueued,
                MigrationTaskStatus::DryRunSuccess,
                JobWorkView::DryRun { job_id: job.job_id, old_status: job.status },
            ),
            MigrationJobStatus::DryRunSuccess => self.in_transition().task_started(
                Some(JobWorkView::StartRun { job_id: job.job_id }),
            ),
            MigrationJobStatus::WaitingRun => self.phase_driven(
                MigrationTaskStatus::DryRunSuccess,
                MigrationTaskStatus::Success,
                JobWorkView::Schema {
                    job_id: job.job_id,
                    schema: job.schema,
                    migration: job.migration,
                },
            ),
            _ => self.idled(),
        }
    }

    /// A worker slot is used.
    pub open spec fn enqueued(self) -> (SchedulerView<P>, EnqueueView<P>) {
        if self.job is None {
            (self, EnqueueView::FetchJob)
        } else {
            self.job_driven()
        }
    }

    /// The next pending job is there.
    pub open spec fn job_enqueued(self, next: Option<JobView<P>>) -> (
        SchedulerView<P>,
        EnqueueView<P>,
    ) {
        if next is None {
            self.idled()
        } else {
            SchedulerView { job: next, ..self }.job_driven()
        }
    }

    /// The pending tasks are there.
    pub open spec fn batch_enqueued(self, batch: Seq<TaskView>) -> (
        SchedulerView<P>,
        EnqueueView<P>,
    ) {
        SchedulerView { batch, ..self }.task_started(None)
    }

    /// A message was handled. It is not necessary to look for a slot for the new job while
    /// another one is being driven: that one is gone on with when a worker reports, or, if none
    /// runs, by the slot that is looked for already.
    pub open spec fn notified(self) -> SchedulerView<P> {
        SchedulerView {
            has_work: self.job is None || (self.has_work && self.workers == 0),
            ..self
        }
    }

    /// A worker reported.
    pub open spec fn joined(self) -> SchedulerView<P> {
        SchedulerView { workers: (self.workers - 1) as nat, ..self }
    }

    /// The current job went to another state.
    pub open spec fn job_moved(self, status: MigrationJobStatus) -> SchedulerView<P> {
        SchedulerView {
            job: if status.finished() {
                None
            } else {
                Some(self.job->0.with_status(status))
            },
            has_work: true,
            ..self
        }
    }

    /// There is more to do, with `in_flight` slots in use, if
    /// - the batch has more tasks to start,
    /// - tasks are pending that are not in flight, or
    /// - no task is pending or in flight: the job is to be moved on.
    pub open spec fn more_work(self, in_flight: nat) -> bool {
        let pending = self.job->0.pending();
        ||| self.batch.len() > 0
        ||| pending > in_flight
        ||| pending == 0 && in_flight == 0
    }

    /// A task of the current job went from one state to the other, at a time when `in_flight`
    /// slots are in use.
    pub open spec fn task_recorded(
        self,
        old_status: MigrationTaskStatus,
        new_status: MigrationTaskStatus,
        in_flight: nat,
    ) -> SchedulerView<P> {
        let counted = SchedulerView {
            job: Some(self.job->0.moved(old_status, new_status)),
            ..self
        };
        SchedulerView { has_work: counted.more_work(in_flight), ..counted }
    }
}

/// Drives migration jobs, one at a time.
///
/// The scheduler decides. To ask the store, to start workers and to wait for them is up to the
/// one who runs it, who tells the scheduler what happened and does what it answers.
#[derive(Debug)]
pub struct Scheduler<P> {
    workers: usize,
    /// A batch of tasks for the current job (if any)
    current_batch: Vec<MigrationTask>,
    /// Currently processing job
    current_job: Option<MigrationJob<P>>,
    has_work: bool,
    permits: Arc<Semaphore>,
}

impl<P> View for Scheduler<P> {
    type V = SchedulerView<P>;

    closed spec fn view(&self) -> SchedulerView<P> {
        SchedulerView {
            workers: self.workers as nat,
            batch: self.current_batch@.map_values(|task: MigrationTask| task@),
            job: match self.current_job {
                Some(job) => Some(job@),
                None => None,
            },
            has_work: self.has_work,
        }
    }
}

impl<P> Scheduler<P> {
    /// The semaphore whose permits are the worker slots.
    pub closed spec fn slots(&self) -> Semaphore {
        *self.permits
    }

    /// A scheduler that has nothing to drive yet, and looks for a job.
    pub fn new() -> (scheduler: Scheduler<P>)
        ensures
            scheduler@ == (SchedulerView::<P> {
                workers: 0,
                batch: Seq::empty(),
                job: None,
                has_work: true,
            }),
            initial_permits(scheduler.slots()) == MAX_CONCURRENT_JOBS,
    {
        let scheduler = Scheduler {
            workers: 0,
            current_batch: Vec::new(),
            current_job: None,
            // initialized to true to kickoff the queue
            has_work: true,
            permits: Arc::new(Semaphore::new(MAX_CONCURRENT_JOBS)),
        };
        assert(scheduler@.batch =~= Seq::empty());
        scheduler
    }

    /// The semaphore whose permits are the worker slots.
    pub fn permits(&self) -> (permits: Arc<Semaphore>)
        ensures
            *permits == self.slots(),
    {
        self.permits.clone()
    }

    /// The job that is being driven.
    pub fn current_job(&self) -> (job: Option<&MigrationJob<P>>)
        ensures
            job is Some <==> self@.job is Some,
            job matches Some(job) ==> job@ == self@.job->0,
    {
        self.current_job.as_ref()
    }

    /// What to wait for, besides a message.
    pub fn branches(&self) -> (branches: Branches)
        ensures
            branches.slot == self@.has_work,
            branches.worker == (self@.workers > 0),
    {
        Branches { slot: self.has_work, worker: self.workers > 0 }
    }

    /// Handles a message: the answer is the job to register.
    pub fn handle_msg(&mut self, msg: SchedulerMessage<P>) -> (registration: JobRegistration<P>)
        ensures
            final(self)@ == old(self)@.notified(),
            final(self)@.job == old(self)@.job,
            final(self)@.batch == old(self)@.batch,
            final(self)@.workers == old(self)@.workers,
            final(self)@.has_work <==> old(self)@.job is None || (old(self)@.has_work
                && old(self)@.workers == 0),
            final(self).slots() == old(self).slots(),
            msg matches SchedulerMessage::ScheduleMigration { schema, migration } ==> {
                &&& registration.schema@ == schema@
                &&& *registration.migration == *migration
            },
    {
        match msg {
            SchedulerMessage::ScheduleMigration { schema, migration } => {
                let registration = self.register_migration_job(schema, migration);
                // it not necessary to raise the flag if we are currently processing a job: it
                // prevents spurious wakeups, and the job will be picked up anyway. If no worker
                // is there to wake us up, the flag is left as it is.
                self.has_work = self.current_job.is_none() || (self.has_work && self.workers == 0);
                registration
            },
        }
    }

    /// The job to register for a migration of `schema`.
    pub fn register_migration_job(&self, schema: String, migration: Arc<P>) -> (registration:
        JobRegistration<P>)
        ensures
            registration.schema@ == schema@,
            *registration.migration == *migration,
    {
        JobRegistration { schema, migration }
    }

    /// Uses a worker slot: for the current job, or to get one.
    pub fn enqueue_work(&mut self) -> (enqueue: Enqueue<P>)
        requires
            old(self)@.workers + 2 <= usize::MAX,
            old(self)@.job matches Some(job) ==> job.steppable(),
        ensures
            (final(self)@, enqueue@) == old(self)@.enqueued(),
            final(self).slots() == old(self).slots(),
    {
        if self.current_job.is_none() {
            Enqueue::FetchJob
        } else {
            self.step_job()
        }
    }

    /// Goes on with the use of a worker slot, after the store was asked for the next pending job.
    pub fn enqueue_job(&mut self, next: Option<MigrationJob<P>>) -> (enqueue: Enqueue<P>)
        requires
            old(self)@.workers + 2 <= usize::MAX,
            old(self)@.job is None,
            next matches Some(job) ==> job@.steppable(),
        ensures
            (final(self)@, enqueue@) == old(self)@.job_enqueued(
                match next {
                    Some(job) => Some(job@),
                    None => None,
                },
            ),
            final(self).slots() == old(self).slots(),
    {
        match next {
            Some(job) => {
                self.current_job = Some(job);
                self.step_job()
            },
            None => {
                self.has_work = false;
                Enqueue::Start { job: None, task: None }
            },
        }
    }

    /// Goes on with the use of a worker slot, after the store was asked for pending tasks.
    pub fn enqueue_batch(&mut self, batch: Vec<MigrationTask>) -> (enqueue: Enqueue<P>)
        requires
            old(self)@.workers < usize::MAX,
            old(self)@.job is Some,
            old(self)@.job->0.status.awaited() is Some,
            old(self)@.batch.len() == 0,
        ensures
            (final(self)@, enqueue@) == old(self)@.batch_enqueued(
                batch@.map_values(|task: MigrationTask| task@),
            ),
            final(self).slots() == old(self).slots(),
    {
        self.current_batch = batch;
        self.start_task(None)
    }

    /// Uses a worker slot for the current job.
    fn step_job(&mut self) -> (enqueue: Enqueue<P>)
        requires
            old(self)@.workers + 2 <= usize::MAX,
            old(self)@.job is Some,
            old(self)@.job->0.steppable(),
        ensures
            (final(self)@, enqueue@) == old(self)@.job_driven(),
            final(self).slots() == old(self).slots(),
    {
        let job = self.current_job.as_ref().unwrap();
        let job_id: i64 = job.job_id();
        match job.status() {
            MigrationJobStatus::WaitingDryRun => {
                if job.progress_all(MigrationTaskStatus::DryRunSuccess) {
                    // ready to move to the run phase
                    let old_status = job.status();
                    self.start_transition();
                    Enqueue::Start {
                        job: Some(JobWork::DryRun(DryRunWork { job_id, old_status })),
                        task: None,
                    }
                } else {
                    self.fill_batch(job_id, MigrationTaskStatus::Enqueued)
                }
            },
            MigrationJobStatus::DryRunSuccess => {
                self.start_transition();
                self.start_task(Some(JobWork::StartRun(StartRunWork { job_id })))
            },
            MigrationJobStatus::WaitingRun => {
                if job.progress_all(MigrationTaskStatus::Success) {
                    let schema = job.schema();
                    let migration = job.migration();
                    // do not enqueue anything until the schema migration is complete
                    self.start_transition();
                    Enqueue::Start {
                        job: Some(JobWork::Schema(SchemaWork { job_id, schema, migration })),
                        task: None,
                    }
                } else {
                    self.fill_batch(job_id, MigrationTaskStatus::DryRunSuccess)
                }
            },
            _ => {
                // just wait for the transition. A spurious wakeup can lead here.
                self.has_work = false;
                Enqueue::Start { job: None, task: None }
            },
        }
    }

    /// Marks the current job as being moved to another state by a worker.
    fn start_transition(&mut self)
        requires
            old(self)@.workers < usize::MAX,
            old(self)@.job is Some,
        ensures
            final(self)@ == old(self)@.in_transition(),
            final(self).slots() == old(self).slots(),
    {
        self.set_job_status(MigrationJobStatus::WaitingTransition);
        self.workers = self.workers + 1;
        self.has_work = false;
    }

    fn set_job_status(&mut self, status: MigrationJobStatus)
        requires
            old(self)@.job is Some,
        ensures
            final(self)@ == (SchedulerView {
                job: Some(old(self)@.job->0.with_status(status)),
                ..old(self)@
            }),
            final(self).slots() == old(self).slots(),
    {
        match &mut self.current_job {
            Some(job) => job.set_status(status),
            None => {},
        }
    }

    /// Starts the next task of the batch. If there is none, asks for those in state `awaited`.
    fn fill_batch(&mut self, job_id: i64, awaited: MigrationTaskStatus) -> (enqueue: Enqueue<P>)
        requires
            old(self)@.workers < usize::MAX,
            old(self)@.job is Some,
        ensures
            (final(self)@, enqueue@) == if old(self)@.batch.len() == 0 {
                (
                    old(self)@,
                    EnqueueView::FetchBatch {
                        job_id: job_id as int,
                        status: awaited,
                        limit: TASK_BATCH_SIZE as nat,
                    },
                )
            } else {
                old(self)@.task_started(None)
            },
            final(self).slots() == old(self).slots(),
    {
        if self.current_batch.len() == 0 {
            Enqueue::FetchBatch { job_id, status: awaited, limit: TASK_BATCH_SIZE }
        } else {
            self.start_task(None)
        }
    }

    /// Starts the next task of the batch, besides `work`.
    fn start_task(&mut self, work: Option<JobWork<P>>) -> (enqueue: Enqueue<P>)
        requires
            old(self)@.workers < usize::MAX,
            old(self)@.job is Some,
        ensures
            (final(self)@, enqueue@) == old(self)@.task_started(
                match work {
                    Some(work) => Some(work@),
                    None => None,
                },
            ),
            final(self).slots() == old(self).slots(),
    {
        match self.current_batch.pop() {
            Some(task) => {
                let job = self.current_job.as_ref().unwrap();
                let task = TaskWork::new(task, job.status(), job.migration());
                self.workers = self.workers + 1;
                assert(self@.batch =~= old(self)@.batch.drop_last());
                Enqueue::Start { job: work, task: Some(task) }
            },
            None => {
                // there is still a job, but no task to start: the remaining ones are in flight.
                // just wait.
                self.has_work = false;
                Enqueue::Start { job: work, task: None }
            },
        }
    }

    /// Counts a task of the current job that went from one state to the other.
    ///
    /// Of the worker slots, those that are not available at the time of the call are in use: their
    /// number is the result. It is `None`, and nothing changes, if there are more available than
    /// there are slots, which no scheduler starts with.
    pub fn record_task(
        &mut self,
        old_status: MigrationTaskStatus,
        new_status: MigrationTaskStatus,
    ) -> (in_flight: Option<usize>)
        requires
            old(self)@.job is Some,
            old(self)@.job->0.can_move(old_status, new_status),
        ensures
            match in_flight {
                Some(in_flight) => in_flight <= MAX_CONCURRENT_JOBS && final(self)@ == old(
                    self,
                )@.task_recorded(old_status, new_status, in_flight as nat),
                None => final(self)@ == old(self)@,
            },
            exists|available: usize| #[trigger]
                call_ensures(Semaphore::available_permits, (&old(self).slots(),), available) && (
                in_flight is None <==> available > MAX_CONCURRENT_JOBS) && (in_flight matches Some(
                    in_flight,
                ) ==> in_flight == MAX_CONCURRENT_JOBS - available),
            final(self).slots() == old(self).slots(),
    {
        let available: usize = self.permits.available_permits();
        assert(call_ensures(Semaphore::available_permits, (&self.slots(),), available));
        self.record_task_with_available(old_status, new_status, available)
    }

    /// Counts a task of the current job that went from one state to the other, at a time when
    /// `available` worker slots are available. The others are in use: their number is the result.
    /// It is `None`, and nothing changes, if more are available than there are slots.
    pub fn record_task_with_available(
        &mut self,
        old_status: MigrationTaskStatus,
        new_status: MigrationTaskStatus,
        available: usize,
    ) -> (in_flight: Option<usize>)
        requires
            old(self)@.job is Some,
            old(self)@.job->0.can_move(old_status, new_status),
        ensures
            in_flight is None <==> available > MAX_CONCURRENT_JOBS,
            in_flight is None ==> final(self)@ == old(self)@,
            in_flight matches Some(in_flight) ==> {
                &&& in_flight == MAX_CONCURRENT_JOBS - available
                &&& final(self)@ == old(self)@.task_recorded(
                    old_status,
                    new_status,
                    in_flight as nat,
                )
            },
            final(self).slots() == old(self).slots(),
    {
        if available > MAX_CONCURRENT_JOBS {
            None
        } else {
            let in_flight: usize = MAX_CONCURRENT_JOBS - available;
            self.record_task_with(old_status, new_status, in_flight);
            Some(in_flight)
        }
    }

    /// Counts a task of the current job that went from one state to the other, at a time when
    /// `in_flight` worker slots are in use.
    pub fn record_task_with(
        &mut self,
        old_status: MigrationTaskStatus,
        new_status: MigrationTaskStatus,
        in_flight: usize,
    )
        requires
            old(self)@.job is Some,
            old(self)@.job->0.can_move(old_status, new_status),
        ensures
            final(self)@ == old(self)@.task_recorded(old_status, new_status, in_flight as nat),
            final(self).slots() == old(self).slots(),
    {
        match &mut self.current_job {
            Some(job) => job.move_task(old_status, new_status),
            None => {},
        }
        let pending_tasks: usize = self.current_job.as_ref().unwrap().count_pending_tasks();
        self.has_work = self.current_batch.len() > 0 || (pending_tasks == 0 && in_flight == 0)
            || pending_tasks > in_flight;
    }

    /// Moves the current job to the state that a worker reported.
    fn move_job(&mut self, status: MigrationJobStatus)
        requires
            !status.finished() ==> old(self)@.job is Some,
        ensures
            final(self)@ == old(self)@.job_moved(status),
            final(self).slots() == old(self).slots(),
    {
        if status.is_finished() {
            self.current_job = None;
        } else {
            self.set_job_status(status);
        }
        self.has_work = true;
    }

    /// Does one step: what happened is `event`, and the answer is what to do.
    pub fn step(&mut self, event: StepEvent<P>) -> (action: StepAction<P>)
        requires
            event is Slot ==> old(self)@.has_work,
            event is Slot ==> old(self)@.workers + 2 <= usize::MAX,
            event is Slot ==> (old(self)@.job matches Some(job) ==> job.steppable()),
            event is Worker ==> old(self)@.workers > 0,
            event matches StepEvent::Worker(WorkResult::Job { status }) ==> (!status.finished()
                ==> old(self)@.job is Some),
        ensures
            match event {
                StepEvent::Message(SchedulerMessage::ScheduleMigration { schema, migration }) => {
                    &&& final(self)@ == old(self)@.notified()
                    &&& action matches StepAction::Register(registration)
                    &&& registration.schema@ == schema@
                    &&& *registration.migration == *migration
                },
                StepEvent::Slot => {
                    &&& action matches StepAction::Enqueue(enqueue)
                    &&& (final(self)@, enqueue@) == old(self)@.enqueued()
                },
                StepEvent::Worker(WorkResult::Task { old_status, task, error }) => {
                    &&& final(self)@ == old(self)@.joined()
                    &&& action == (StepAction::<P>::Record { old_status, task, error })
                },
                StepEvent::Worker(WorkResult::Job { status }) => {
                    &&& final(self)@ == old(self)@.joined().job_moved(status)
                    &&& action is Continue
                },
                StepEvent::Closed => {
                    &&& final(self)@ == old(self)@
                    &&& action is Exit || action is Continue
                    &&& action is Exit <==> old(self)@.at_rest()
                    &&& action is Exit <==> !old(self)@.has_work && old(self)@.workers == 0
                },
            },
            final(self).slots() == old(self).slots(),
    {
        match event {
            StepEvent::Message(msg) => StepAction::Register(self.handle_msg(msg)),
            StepEvent::Slot => StepAction::Enqueue(self.enqueue_work()),
            StepEvent::Worker(result) => {
                self.workers = self.workers - 1;
                match result {
                    WorkResult::Task { old_status, task, error } => StepAction::Record {
                        old_status,
                        task,
                        error,
                    },
                    WorkResult::Job { status } => {
                        self.move_job(status);
                        StepAction::Continue
                    },
                }
            },
            StepEvent::Closed => {
                if self.has_work || self.workers > 0 {
                    StepAction::Continue
                } else {
                    StepAction::Exit
                }
            },
        }
    }
}

} // verus!
