//! The scheduler together with what it drives: the store, and the workers.
//!
//! A [`System`] is a scheduler with what is going on around it, and a [`Step`] is what can happen
//! to both. The steps say what the scheduler relies on: the store answers what it is asked for,
//! and a worker reports what its work can lead to.

use vstd::prelude::*;

use crate::job::{JobView, TaskView};
use crate::scheduler::{EnqueueView, SchedulerView, MAX_CONCURRENT_JOBS};
use crate::status::{MigrationJobStatus, MigrationTaskStatus};
use crate::work::{reported_task_status, schema_update, Backup, JobWorkView, TaskWorkView};

verus! {

/// A scheduler, and what is going on around it.
pub struct System<P> {
    pub scheduler: SchedulerView<P>,
    /// How many workers are stepping a task.
    pub in_flight: nat,
    /// The worker that is moving the current job to another state.
    pub transition: Option<JobWorkView<P>>,
    /// How many worker slots are in use. A worker gives its slot back before it reports.
    pub slots: nat,
    /// How many tasks the current job waits for that the scheduler did not fetch from the store.
    pub unfetched: nat,
    /// How many jobs were registered that the scheduler did not get from the store.
    pub registered: nat,
    /// How many jobs were registered in all.
    pub accepted: nat,
    /// How many jobs are over.
    pub ended: nat,
    /// Someone is left who can send a message.
    pub open: bool,
    /// How many messages were sent and not handled.
    pub unread: nat,
}

/// What can happen.
pub enum Step<P> {
    /// A message is sent.
    Send,
    /// The last one who could send a message is gone.
    HangUp,
    /// A message is handled. The job that it asks for may be refused by the store.
    Message { registered: bool },
    /// A worker slot is used.
    Slot,
    /// The store gives the next pending job.
    NextJob { next: Option<JobView<P>> },
    /// The store gives pending tasks.
    Batch { batch: Seq<TaskView> },
    /// A worker is done, and gives its slot back.
    Release,
    /// A worker reports a task. Stepping it left it in state `stepped`.
    TaskDone {
        work: TaskWorkView<P>,
        stepped: MigrationTaskStatus,
        error: Option<Seq<char>>,
        backup: Backup,
    },
    /// A worker reports the state of the job. If it asks the store to step the job, the store
    /// gives `answer`.
    JobDone {
        answer: Option<MigrationJobStatus>,
        schema_backup: Backup,
        meta_backup: Backup,
    },
}

impl<P> JobView<P> {
    /// The counts of a job agree with its state: in each phase, a task is either waited for or
    /// has an outcome of that phase. There are not more tasks than can be counted.
    pub open spec fn consistent(self) -> bool {
        let progress = self.progress;
        &&& self.tasks() <= usize::MAX
        &&& match self.status {
            MigrationJobStatus::WaitingDryRun => {
                &&& progress[MigrationTaskStatus::Run] == 0
                &&& progress[MigrationTaskStatus::Success] == 0
                &&& progress[MigrationTaskStatus::Failure] == 0
            },
            MigrationJobStatus::DryRunSuccess => self.all_in(MigrationTaskStatus::DryRunSuccess),
            MigrationJobStatus::WaitingRun => {
                &&& progress[MigrationTaskStatus::Enqueued] == 0
                &&& progress[MigrationTaskStatus::DryRunFailure] == 0
                &&& progress[MigrationTaskStatus::Run] == 0
            },
            MigrationJobStatus::WaitingTransition => true,
            _ => false,
        }
    }

    /// A job that the store can give to the scheduler to be driven.
    pub open spec fn ready(self) -> bool {
        &&& self.consistent()
        &&& self.steppable()
        &&& !(self.status is WaitingTransition)
    }
}

impl MigrationTaskStatus {
    /// What stepping a task in this state can lead to.
    pub open spec fn leads_to(self, stepped: MigrationTaskStatus) -> bool {
        match self {
            MigrationTaskStatus::Enqueued => stepped is DryRunSuccess || stepped is DryRunFailure,
            MigrationTaskStatus::DryRunSuccess => stepped is Success || stepped is Failure,
            _ => false,
        }
    }
}

impl<P> System<P> {
    /// A scheduler that was just made, with `registered` jobs in the store.
    pub open spec fn initial(registered: nat) -> System<P> {
        System {
            scheduler: SchedulerView {
                workers: 0,
                batch: Seq::empty(),
                job: None,
                has_work: true,
            },
            in_flight: 0,
            transition: None,
            slots: 0,
            unfetched: 0,
            registered,
            accepted: registered,
            ended: 0,
            open: true,
            unread: 0,
        }
    }

    /// The scheduler did a step, and the workers that it asks for are started.
    pub open spec fn enqueued(self, outcome: (SchedulerView<P>, EnqueueView<P>)) -> System<P> {
        match outcome.1 {
            EnqueueView::Start { job, task } => System {
                scheduler: outcome.0,
                in_flight: if task is Some {
                    self.in_flight + 1
                } else {
                    self.in_flight
                },
                transition: if job is Some {
                    job
                } else {
                    self.transition
                },
                slots: if task is Some || (job is Some && job->0.keeps_slot()) {
                    self.slots + 1
                } else {
                    self.slots
                },
                ..self
            },
            _ => System { scheduler: outcome.0, ..self },
        }
    }

    /// A step that can happen.
    pub open spec fn allows(self, step: Step<P>) -> bool {
        let scheduler = self.scheduler;
        match step {
            Step::Send | Step::HangUp => self.open,
            Step::Message { .. } => self.unread > 0,
            Step::Slot => {
                &&& scheduler.has_work
                &&& self.slots < MAX_CONCURRENT_JOBS
                &&& scheduler.job is Some ==> scheduler.job->0.steppable()
            },
            Step::NextJob { next } => {
                &&& scheduler.has_work
                &&& self.slots < MAX_CONCURRENT_JOBS
                &&& scheduler.job is None
                &&& match next {
                    Some(job) => job.ready() && self.registered > 0,
                    None => self.registered == 0,
                }
            },
            Step::Batch { batch } => {
                &&& scheduler.has_work
                &&& self.slots < MAX_CONCURRENT_JOBS
                &&& scheduler.job is Some
                &&& scheduler.job->0.steppable()
                &&& scheduler.enqueued().1 matches EnqueueView::FetchBatch { job_id, status, limit }
                &&& batch.len() <= limit
                &&& batch.len() <= self.unfetched
                &&& self.unfetched > 0 ==> batch.len() > 0
                &&& forall|i: int|
                    0 <= i < batch.len() ==> (#[trigger] batch[i]).status == status
                        && batch[i].job_id == job_id
            },
            Step::Release => self.slots > 0,
            Step::TaskDone { work, stepped, .. } => {
                &&& self.slots < self.in_flight
                &&& scheduler.job is Some
                &&& scheduler.job->0.status.awaited() matches Some(awaited)
                &&& work.task.status == awaited
                &&& work.task.job_id == scheduler.job->0.job_id
                &&& work.job_status == scheduler.job->0.status
                &&& awaited.leads_to(stepped)
            },
            Step::JobDone { answer, .. } => {
                &&& self.transition is Some
                &&& self.slots == 0
                &&& answer is Some ==> answer->0 is DryRunSuccess
            },
        }
    }

    /// What a step leads to.
    pub open spec fn after(self, step: Step<P>) -> System<P> {
        let scheduler = self.scheduler;
        match step {
            Step::Send => System { unread: self.unread + 1, ..self },
            Step::HangUp => System { open: false, ..self },
            Step::Message { registered } => System {
                scheduler: scheduler.notified(),
                unread: (self.unread - 1) as nat,
                registered: if registered {
                    self.registered + 1
                } else {
                    self.registered
                },
                accepted: if registered {
                    self.accepted + 1
                } else {
                    self.accepted
                },
                ..self
            },
            Step::Slot => self.enqueued(scheduler.enqueued()),
            Step::NextJob { next } => System {
                registered: if next is Some {
                    (self.registered - 1) as nat
                } else {
                    self.registered
                },
                unfetched: if next is Some {
                    next->0.pending()
                } else {
                    0
                },
                ..self
            }.enqueued(scheduler.job_enqueued(next)),
            Step::Batch { batch } => System {
                unfetched: (self.unfetched - batch.len()) as nat,
                ..self
            }.enqueued(scheduler.batch_enqueued(batch)),
            Step::Release => System { slots: (self.slots - 1) as nat, ..self },
            Step::TaskDone { work, stepped, error, backup } => {
                let done = work.stepped(stepped, error);
                let old_status = done.old_status;
                let new_status = reported_task_status(old_status, done.task.status, backup);
                System {
                    scheduler: scheduler.joined().task_recorded(
                        old_status,
                        new_status,
                        self.slots,
                    ),
                    in_flight: (self.in_flight - 1) as nat,
                    unfetched: if new_status == old_status {
                        self.unfetched + 1
                    } else {
                        self.unfetched
                    },
                    ..self
                }
            },
            Step::JobDone { answer, schema_backup, meta_backup } => {
                let status = self.transition->0.reported(answer, schema_backup, meta_backup);
                let moved = scheduler.joined().job_moved(status);
                System {
                    scheduler: moved,
                    ended: if status is RunSuccess || status is RunFailure {
                        self.ended + 1
                    } else {
                        self.ended
                    },
                    transition: None,
                    unfetched: if moved.job is Some {
                        moved.job->0.pending()
                    } else {
                        0
                    },
                    ..self
                }
            },
        }
    }

    /// What the scheduler answers, if the step uses a worker slot.
    pub open spec fn answer(self, step: Step<P>) -> Option<EnqueueView<P>> {
        match step {
            Step::Slot => Some(self.scheduler.enqueued().1),
            Step::NextJob { next } => Some(self.scheduler.job_enqueued(next).1),
            Step::Batch { batch } => Some(self.scheduler.batch_enqueued(batch).1),
            _ => None,
        }
    }

    /// The step starts `work` for a task.
    pub open spec fn starts_task(self, step: Step<P>, work: TaskWorkView<P>) -> bool {
        self.answer(step) matches Some(EnqueueView::Start { task, .. }) && task == Some(work)
    }

    /// The step starts `work` for the job.
    pub open spec fn starts_job(self, step: Step<P>, work: JobWorkView<P>) -> bool {
        self.answer(step) matches Some(EnqueueView::Start { job, .. }) && job == Some(work)
    }

    /// The job that the step is about: the current one, or the one that the store gives.
    pub open spec fn job_at(self, step: Step<P>) -> JobView<P> {
        match step {
            Step::NextJob { next } => next->0,
            _ => self.scheduler.job->0,
        }
    }

    /// How many of the workers that did not report can have a slot.
    pub open spec fn slot_keepers(self) -> nat {
        if self.transition is Some && self.transition->0.keeps_slot() {
            self.in_flight + 1
        } else {
            self.in_flight
        }
    }

    /// The worker that moves the current job on works for that job, and was started when its
    /// tasks allowed for it.
    pub open spec fn transition_due(self) -> bool {
        let job = self.scheduler.job->0;
        match self.transition->0 {
            JobWorkView::DryRun { job_id, old_status } => {
                &&& job_id == job.job_id
                &&& old_status is WaitingDryRun
                &&& job.all_in(MigrationTaskStatus::DryRunSuccess)
            },
            JobWorkView::StartRun { job_id } => {
                &&& job_id == job.job_id
                &&& job.all_in(MigrationTaskStatus::DryRunSuccess)
            },
            JobWorkView::Schema { job_id, schema, migration } => {
                &&& job_id == job.job_id
                &&& schema == job.schema
                &&& migration == job.migration
                &&& job.all_in(MigrationTaskStatus::Success)
            },
        }
    }

    /// What the scheduler knows agrees with what is going on.
    pub open spec fn coherent(self) -> bool {
        let scheduler = self.scheduler;
        &&& scheduler.workers == self.in_flight + if self.transition is Some {
            1nat
        } else {
            0nat
        }
        &&& self.accepted == self.registered + self.ended + if scheduler.job is Some {
            1nat
        } else {
            0nat
        }
        &&& self.slots <= self.slot_keepers()
        &&& self.slots <= MAX_CONCURRENT_JOBS
        &&& match scheduler.job {
            None => {
                &&& scheduler.batch.len() == 0
                &&& scheduler.workers == 0
            },
            Some(job) => {
                &&& job.consistent()
                &&& self.transition is Some <==> job.status is WaitingTransition
                &&& self.transition is Some ==> self.transition_due()
                &&& match job.status.awaited() {
                    Some(awaited) => {
                        &&& job.progress[awaited] == self.in_flight + scheduler.batch.len()
                            + self.unfetched
                        &&& forall|i: int|
                            0 <= i < scheduler.batch.len() ==> (
                            #[trigger] scheduler.batch[i]).status == awaited
                                && scheduler.batch[i].job_id == job.job_id
                    },
                    None => {
                        &&& scheduler.batch.len() == 0
                        &&& self.in_flight == 0
                    },
                }
            },
        }
    }

    /// A job that is being driven is waited for, or is looked after as soon as there is a slot.
    pub open spec fn awake(self) -> bool {
        self.scheduler.job is Some ==> self.scheduler.has_work || self.scheduler.workers > 0
    }

    /// A scheduler that drives nothing and looks for nothing has got every registered job.
    pub open spec fn caught_up(self) -> bool {
        self.scheduler.job is None && !self.scheduler.has_work ==> self.registered == 0
    }

    /// The scheduler exits: no one is left to send a message, every message was handled, and there
    /// is nothing else to wait for.
    pub open spec fn over(self) -> bool {
        !self.open && self.unread == 0 && self.scheduler.at_rest()
    }
}

/// `states` is what a system goes through, from the start on, while the steps happen.
pub open spec fn is_run<P>(states: Seq<System<P>>, steps: Seq<Step<P>>) -> bool {
    &&& states.len() == steps.len() + 1
    &&& states[0] == System::<P>::initial(states[0].registered)
    &&& forall|i: int|
        #![trigger steps[i]]
        0 <= i < steps.len() ==> states[i].allows(steps[i]) && states[i + 1] == states[i].after(
            steps[i],
        )
}

/// What is known of a task, and of the database that it migrates.
pub struct TaskState {
    /// State in which the task was reported last.
    pub status: MigrationTaskStatus,
    /// Writes to the database are blocked.
    pub blocked: bool,
    /// The database holds the task, unfinished.
    pub pending: bool,
}

/// What a worker does to a task.
pub struct TaskRound<P> {
    pub work: TaskWorkView<P>,
    /// State in which the worker leaves the task.
    pub stepped: MigrationTaskStatus,
    pub error: Option<Seq<char>>,
    pub backup: Backup,
}

impl TaskState {
    /// A worker can be started, which finds the task as it was reported last. It does not finish a
    /// task whose database cannot be backed up then: writes would be allowed again, although the
    /// task is going to be stepped once more.
    pub open spec fn allows<P>(self, round: TaskRound<P>) -> bool {
        &&& round.work.task.status == self.status
        &&& round.work.runnable()
        &&& !(round.backup is Failed && round.stepped.finished())
    }

    /// The worker is started.
    pub open spec fn started<P>(self, round: TaskRound<P>) -> TaskState {
        TaskState { blocked: self.blocked || round.work.blocks_writes(), ..self }
    }

    /// The transaction in which the task is stepped is committed.
    pub open spec fn committed<P>(self, round: TaskRound<P>) -> TaskState {
        TaskState { pending: !round.stepped.finished(), ..self.started(round) }
    }

    /// Writes are allowed again, if the task is finished.
    pub open spec fn released<P>(self, round: TaskRound<P>) -> TaskState {
        let committed = self.committed(round);
        let stepped = round.work.stepped(round.stepped, round.error);
        TaskState { blocked: committed.blocked && !stepped.releases_writes(), ..committed }
    }

    /// The task is reported.
    pub open spec fn after<P>(self, round: TaskRound<P>) -> TaskState {
        TaskState {
            status: reported_task_status(round.work.task.status, round.stepped, round.backup),
            ..self.released(round)
        }
    }

    /// Writes are blocked while the database holds the task, unfinished.
    pub open spec fn guarded(self) -> bool {
        self.pending ==> self.blocked
    }
}

/// `states` is what a task goes through while one worker after the other works on it. To start
/// with, it was just registered, or it is in any state that a restart can find it in: writes to its
/// database are blocked as they have to be.
pub open spec fn is_history<P>(states: Seq<TaskState>, rounds: Seq<TaskRound<P>>) -> bool {
    &&& states.len() == rounds.len() + 1
    &&& states[0].guarded()
    &&& states[0].status is Enqueued || states[0].status.finished() || states[0].blocked
    &&& forall|i: int|
        #![trigger rounds[i]]
        0 <= i < rounds.len() ==> states[i].allows(rounds[i]) && states[i + 1] == states[i].after(
            rounds[i],
        )
}

/// The version of a schema database at version `schema_version`, after workers of the job were
/// done with it `attempts` times.
pub open spec fn schema_version_after(job_id: int, schema_version: int, attempts: nat) -> int
    decreases attempts,
{
    if attempts == 0 {
        schema_version
    } else {
        let before = schema_version_after(job_id, schema_version, (attempts - 1) as nat);
        match schema_update(job_id, before) {
            Some(version) => version,
            None => before,
        }
    }
}

/// How often those workers apply the migration.
pub open spec fn schema_migrations(job_id: int, schema_version: int, attempts: nat) -> nat
    decreases attempts,
{
    if attempts == 0 {
        0
    } else {
        let earlier = (attempts - 1) as nat;
        let before = schema_version_after(job_id, schema_version, earlier);
        schema_migrations(job_id, schema_version, earlier) + if schema_update(job_id, before) is Some {
            1nat
        } else {
            0nat
        }
    }
}

} // verus!
