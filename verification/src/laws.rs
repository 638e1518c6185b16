//! What holds of the scheduler as a whole.

use vstd::prelude::*;

use crate::job::{JobView, TaskView};
use crate::scheduler::{EnqueueView, SchedulerView, MAX_CONCURRENT_JOBS};
use crate::status::{MigrationJobStatus, MigrationTaskStatus};
use crate::system::{
    is_history, is_run, schema_migrations, schema_version_after, Step, System, TaskRound, TaskState,
};
use crate::work::{
    reported_task_status, schema_update, Backup, JobWorkView, SteppedJobView, TaskWorkView,
};

verus! {

/// To start with, what the scheduler knows agrees with what is going on, and it looks for a job.
pub proof fn initial_system<P>(registered: nat)
    ensures
        System::<P>::initial(registered).coherent(),
        System::<P>::initial(registered).awake(),
        System::<P>::initial(registered).caught_up(),
{
}

/// A task that changes state is counted once before and once after: the number of tasks of a job
/// stays the same.
pub proof fn tasks_are_conserved<P>(
    job: JobView<P>,
    from: MigrationTaskStatus,
    to: MigrationTaskStatus,
)
    requires
        job.progress[from] > 0,
    ensures
        job.moved(from, to).tasks() == job.tasks(),
{
}

/// To start the next task of the batch leaves the system coherent.
proof fn started_stays_coherent<P>(system: System<P>)
    requires
        system.coherent(),
        system.scheduler.job is Some,
        system.scheduler.job->0.status.awaited() is Some,
        system.slots < MAX_CONCURRENT_JOBS,
    ensures
        system.enqueued(system.scheduler.task_started(None)).coherent(),
{
}

/// To use a slot for the current job leaves the system coherent.
proof fn driven_stays_coherent<P>(system: System<P>)
    requires
        system.coherent(),
        system.scheduler.job is Some,
        system.scheduler.job->0.steppable(),
        system.slots < MAX_CONCURRENT_JOBS,
    ensures
        system.enqueued(system.scheduler.job_driven()).coherent(),
{
    if system.scheduler.job->0.status.awaited() is Some {
        started_stays_coherent(system);
    }
}

/// Once no task is waited for, and none failed, every task of the job reached the end of the
/// phase.
proof fn phase_is_over<P>(job: JobView<P>)
    requires
        job.consistent(),
        job.steppable(),
        job.status.awaited() is Some,
        job.pending() == 0,
    ensures
        job.status is WaitingDryRun ==> job.all_in(MigrationTaskStatus::DryRunSuccess),
        job.status is WaitingRun ==> job.all_in(MigrationTaskStatus::Success),
{
    assert forall|status: MigrationTaskStatus|
        job.status is WaitingDryRun && !(status is DryRunSuccess) || job.status is WaitingRun
            && !(status is Success) implies #[trigger] job.progress[status] == 0 by {
        match status {
            MigrationTaskStatus::Enqueued => {},
            MigrationTaskStatus::DryRunSuccess => {},
            MigrationTaskStatus::DryRunFailure => {},
            MigrationTaskStatus::Run => {},
            MigrationTaskStatus::Success => {},
            MigrationTaskStatus::Failure => {},
        }
    }
}

/// Whatever happens, what the scheduler knows goes on to agree with what is going on.
pub proof fn coherence_is_kept<P>(system: System<P>, step: Step<P>)
    requires
        system.coherent(),
        system.allows(step),
    ensures
        system.after(step).coherent(),
{
    let scheduler = system.scheduler;
    match step {
        Step::Send | Step::HangUp | Step::Release | Step::Message { .. } => {},
        Step::Slot => {
            if scheduler.job is Some {
                driven_stays_coherent(system);
            }
        },
        Step::NextJob { next } => {
            if next is Some {
                driven_stays_coherent(
                    System {
                        scheduler: SchedulerView { job: next, ..scheduler },
                        registered: (system.registered - 1) as nat,
                        unfetched: next->0.pending(),
                        ..system
                    },
                );
            }
        },
        Step::Batch { batch } => {
            started_stays_coherent(
                System {
                    scheduler: SchedulerView { batch, ..scheduler },
                    unfetched: (system.unfetched - batch.len()) as nat,
                    ..system
                },
            );
        },
        Step::TaskDone { work, stepped, error, backup } => {
            let done = work.stepped(stepped, error);
            let old_status = done.old_status;
            let new_status = reported_task_status(old_status, done.task.status, backup);
            tasks_are_conserved(scheduler.job->0, old_status, new_status);
        },
        Step::JobDone { .. } => {},
    }
}

/// A job that is being driven is never left alone: after any step, a worker runs for it or the
/// scheduler looks for a slot.
pub proof fn no_lost_wakeup<P>(system: System<P>, step: Step<P>)
    requires
        system.coherent(),
        system.awake(),
        system.allows(step),
    ensures
        system.after(step).awake(),
{
    let scheduler = system.scheduler;
    if step is Batch && scheduler.job->0.pending() == 0 {
        phase_is_over(scheduler.job->0);
    }
}

/// No registered job is forgotten: after any step, a scheduler that drives nothing and looks for
/// nothing has got every job that was registered.
pub proof fn no_job_is_forgotten<P>(system: System<P>, step: Step<P>)
    requires
        system.coherent(),
        system.caught_up(),
        system.allows(step),
    ensures
        system.after(step).caught_up(),
{
}

/// At every point of a run, what the scheduler knows agrees with what is going on, and no
/// registered job is forgotten.
pub proof fn runs_are_coherent<P>(states: Seq<System<P>>, steps: Seq<Step<P>>, at: int)
    requires
        is_run(states, steps),
        0 <= at < states.len(),
    ensures
        states[at].coherent(),
        states[at].caught_up(),
    decreases at,
{
    if at == 0 {
        initial_system::<P>(states[0].registered);
    } else {
        runs_are_coherent(states, steps, at - 1);
        let step = steps[at - 1];
        coherence_is_kept(states[at - 1], step);
        no_job_is_forgotten(states[at - 1], step);
    }
}

/// At every point of a run, a job that is being driven is not left alone.
pub proof fn runs_stay_awake<P>(states: Seq<System<P>>, steps: Seq<Step<P>>, at: int)
    requires
        is_run(states, steps),
        0 <= at < states.len(),
    ensures
        states[at].awake(),
    decreases at,
{
    if at == 0 {
        initial_system::<P>(states[0].registered);
    } else {
        runs_stay_awake(states, steps, at - 1);
        runs_are_coherent(states, steps, at - 1);
        no_lost_wakeup(states[at - 1], steps[at - 1]);
    }
}

/// A scheduler exits when it has driven every registered job to its end: no one is left to send a
/// message, every message was handled, no job is being driven, no worker runs, and no job is left
/// in the store.
pub proof fn exit_leaves_nothing_behind<P>(states: Seq<System<P>>, steps: Seq<Step<P>>)
    requires
        is_run(states, steps),
        states.last().over(),
    ensures
        !states.last().open,
        states.last().unread == 0,
        states.last().scheduler.job is None,
        states.last().scheduler.batch.len() == 0,
        states.last().in_flight == 0,
        states.last().transition is None,
        states.last().registered == 0,
{
    runs_are_coherent(states, steps, states.len() - 1);
    runs_stay_awake(states, steps, states.len() - 1);
}

/// Nothing can happen to a scheduler that exits.
pub proof fn exit_is_the_end<P>(system: System<P>, step: Step<P>)
    requires
        system.coherent(),
        system.over(),
    ensures
        !system.allows(step),
{
}

/// Something can happen to a scheduler that does not exit, as long as the job that it drives can
/// be driven further.
pub proof fn no_end_before_exit<P>(system: System<P>)
    requires
        system.coherent(),
        system.scheduler.job is Some ==> system.scheduler.job->0.steppable(),
        !system.over(),
    ensures
        exists|step: Step<P>| #[trigger] system.allows(step),
{
    let step = if system.open {
        Step::<P>::Send
    } else if system.unread > 0 {
        Step::<P>::Message { registered: true }
    } else if system.slots > 0 {
        Step::<P>::Release
    } else if system.transition is Some {
        Step::<P>::JobDone {
            answer: None,
            schema_backup: Backup::Disabled,
            meta_backup: Backup::Disabled,
        }
    } else if system.in_flight > 0 {
        let stepped = if system.scheduler.job->0.status is WaitingRun {
            MigrationTaskStatus::Success
        } else {
            MigrationTaskStatus::DryRunSuccess
        };
        let job = system.scheduler.job->0;
        let task = TaskView {
            namespace: Seq::empty(),
            task_id: 0,
            job_id: job.job_id,
            status: job.status.awaited()->0,
        };
        let work = TaskWorkView { task, job_status: job.status, migration: job.migration };
        Step::<P>::TaskDone { work, stepped, error: None, backup: Backup::Disabled }
    } else {
        Step::<P>::Slot
    };
    assert(system.allows(step));
}

/// A worker that reports was started, and there is a job that it worked for. A task that is
/// reported was counted in the state in which its worker found it, and can be counted in the
/// state in which it is reported.
pub proof fn reports_are_expected<P>(system: System<P>, step: Step<P>)
    requires
        system.coherent(),
        system.allows(step),
        step is TaskDone || step is JobDone,
    ensures
        system.scheduler.workers > 0,
        system.scheduler.job is Some,
        step matches Step::TaskDone { work, stepped, error, backup } ==> {
            let done = work.stepped(stepped, error);
            let new_status = reported_task_status(done.old_status, done.task.status, backup);
            system.scheduler.job->0.can_move(done.old_status, new_status)
        },
{
}

/// Every task that the scheduler starts is a task of the current job, in a state that a worker can
/// work on.
pub proof fn started_tasks_are_runnable<P>(
    system: System<P>,
    step: Step<P>,
    work: TaskWorkView<P>,
)
    requires
        system.coherent(),
        system.allows(step),
        system.starts_task(step, work),
    ensures
        work.runnable(),
        work.task.job_id == system.job_at(step).job_id,
        work.migration == system.job_at(step).migration,
{
    let batch = match step {
        Step::Batch { batch } => batch,
        _ => system.scheduler.batch,
    };
    assert(batch[batch.len() - 1] == batch.last());
}

/// The migration is not applied to any database before every task of the job passed its dry run.
pub proof fn dry_runs_come_first<P>(system: System<P>, step: Step<P>, work: TaskWorkView<P>)
    requires
        system.coherent(),
        system.allows(step),
        system.starts_task(step, work),
        !(work.task.status is Enqueued),
    ensures
        system.job_at(step).status is WaitingRun,
        system.job_at(step).progress[MigrationTaskStatus::Enqueued] == 0,
        system.job_at(step).progress[MigrationTaskStatus::DryRunFailure] == 0,
{
    started_tasks_are_runnable(system, step, work);
}

/// The schema database comes last: the migration is applied to it once every task of the job
/// applied it.
pub proof fn schema_comes_last<P>(system: System<P>, step: Step<P>, work: JobWorkView<P>)
    requires
        system.allows(step),
        system.starts_job(step, work),
        work is Schema,
    ensures
        system.job_at(step).all_in(MigrationTaskStatus::Success),
{
}

/// A job ends when the migration was applied by every task and to the schema database, and both
/// that database and the meta store were backed up.
pub proof fn jobs_end_when_all_is_done<P>(system: System<P>, step: Step<P>)
    requires
        system.coherent(),
        system.allows(step),
        system.scheduler.job is Some,
        system.after(step).scheduler.job is None,
    ensures
        system.scheduler.job->0.all_in(MigrationTaskStatus::Success),
        system.transition matches Some(work) && work is Schema,
        step matches Step::JobDone { schema_backup, meta_backup, .. } && !(schema_backup is Failed)
            && !(meta_backup is Failed),
{
}

/// While a worker moves the job to another state, nothing is started for the job: a slot is
/// given back, and the job stays as it is.
pub proof fn transitions_are_exclusive<P>(scheduler: SchedulerView<P>)
    requires
        scheduler.job is Some,
        scheduler.job->0.status is WaitingTransition,
    ensures
        scheduler.enqueued() == (
            SchedulerView { has_work: false, ..scheduler },
            EnqueueView::<P>::Start { job: None, task: None },
        ),
        scheduler.notified().job == scheduler.job,
{
}

/// A job is moved to another state by one worker at a time, and no task is in flight then.
pub proof fn transitions_are_alone<P>(system: System<P>)
    requires
        system.coherent(),
        system.scheduler.job is Some,
        system.scheduler.job->0.status is WaitingTransition,
    ensures
        system.scheduler.workers == 1,
        system.scheduler.batch.len() == 0,
        system.in_flight == 0,
{
}

/// That a worker moves the job is not persisted and not reported: it is no state that a worker
/// leaves the job in.
pub proof fn transitions_are_transient<P>(
    system: System<P>,
    answer: Option<MigrationJobStatus>,
    schema_backup: Backup,
    meta_backup: Backup,
)
    requires
        system.coherent(),
        system.allows(Step::JobDone { answer, schema_backup, meta_backup }),
    ensures
        !(system.transition->0.reported(answer, schema_backup, meta_backup) is WaitingTransition),
        !(SteppedJobView::run_started().status is WaitingTransition),
        !(SteppedJobView::schema_migrated().status is WaitingTransition),
{
}

/// Every task that is worked on with success, and backed up, brings the job closer to the end of
/// its phase: one task less is pending.
pub proof fn stepped_tasks_are_progress<P>(system: System<P>, step: Step<P>)
    requires
        system.coherent(),
        system.allows(step),
        step matches Step::TaskDone { backup, .. } && !(backup is Failed),
    ensures
        system.after(step).scheduler.job->0.pending() == system.scheduler.job->0.pending() - 1,
{
}

/// The state of a job from which a worker moves it on.
pub open spec fn moved_from<P>(work: JobWorkView<P>) -> MigrationJobStatus {
    match work {
        JobWorkView::DryRun { .. } => MigrationJobStatus::WaitingDryRun,
        JobWorkView::StartRun { .. } => MigrationJobStatus::DryRunSuccess,
        JobWorkView::Schema { .. } => MigrationJobStatus::WaitingRun,
    }
}

/// How far a job is in this state: dry run, start of the run, run, and end.
pub open spec fn advance(status: MigrationJobStatus) -> int {
    match status {
        MigrationJobStatus::WaitingDryRun => 0,
        MigrationJobStatus::DryRunSuccess => 1,
        MigrationJobStatus::WaitingRun => 2,
        MigrationJobStatus::RunSuccess => 3,
        _ => -1,
    }
}

/// A worker that moves the job on is started in the state that it moves the job from.
pub proof fn job_workers_start_in_turn<P>(system: System<P>, step: Step<P>, work: JobWorkView<P>)
    requires
        system.allows(step),
        system.starts_job(step, work),
    ensures
        system.job_at(step).status == moved_from(work),
        system.after(step).transition == Some(work),
        system.after(step).scheduler.job->0.status is WaitingTransition,
{
}

/// Every worker that moves the job on with success, and is backed up, brings the job one phase
/// further, and the last one ends it. Any other outcome leaves the job in the phase in which the
/// worker was started.
pub proof fn stepped_jobs_are_progress<P>(
    system: System<P>,
    answer: Option<MigrationJobStatus>,
    schema_backup: Backup,
    meta_backup: Backup,
)
    requires
        system.coherent(),
        system.allows(Step::JobDone { answer, schema_backup, meta_backup }),
    ensures
        ({
            let work = system.transition->0;
            let success = {
                &&& !(meta_backup is Failed)
                &&& work is DryRun ==> answer is Some
                &&& work is Schema ==> !(schema_backup is Failed)
            };
            let reported = work.reported(answer, schema_backup, meta_backup);
            let after = system.after(Step::JobDone { answer, schema_backup, meta_backup });
            &&& success ==> advance(reported) == advance(moved_from(work)) + 1
            &&& !success ==> reported == moved_from(work)
            &&& after.scheduler.job is None <==> success && work is Schema
            &&& after.scheduler.job matches Some(job) ==> job.status == reported
        }),
{
}

/// A slot is kept by one worker at most: a task that is started keeps it, and a worker that is
/// started besides to move the job on does not.
pub proof fn slots_are_kept_once<P>(
    scheduler: SchedulerView<P>,
    next: Option<JobView<P>>,
    batch: Seq<TaskView>,
    work: JobWorkView<P>,
    task: TaskWorkView<P>,
)
    requires
        ({
            let both = EnqueueView::Start { job: Some(work), task: Some(task) };
            ||| scheduler.enqueued().1 == both
            ||| scheduler.job_enqueued(next).1 == both
            ||| scheduler.batch_enqueued(batch).1 == both
        }),
    ensures
        !work.keeps_slot(),
{
}

/// A step starts at most one worker, and starts none unless the scheduler looks for a slot and one
/// is free.
pub proof fn workers_are_started_one_by_one<P>(system: System<P>, step: Step<P>)
    requires
        system.coherent(),
        system.allows(step),
    ensures
        system.after(step).scheduler.workers <= system.scheduler.workers + 1,
        system.after(step).scheduler.workers > system.scheduler.workers
            ==> system.scheduler.has_work && system.slots < MAX_CONCURRENT_JOBS,
{
}

/// At every point of a run, no more worker slots are in use than there are, and each of them is
/// used by a worker that did not report yet.
pub proof fn slots_are_limited<P>(states: Seq<System<P>>, steps: Seq<Step<P>>, at: int)
    requires
        is_run(states, steps),
        0 <= at < states.len(),
    ensures
        states[at].slots <= MAX_CONCURRENT_JOBS,
        states[at].slots <= states[at].slot_keepers(),
{
    runs_are_coherent(states, steps, at);
}

/// The batch is of the current job: without a job there is none, and each task of it is a task of
/// that job. The job is not over.
pub proof fn batches_are_of_the_current_job<P>(
    states: Seq<System<P>>,
    steps: Seq<Step<P>>,
    at: int,
    i: int,
)
    requires
        is_run(states, steps),
        0 <= at < states.len(),
        0 <= i < states[at].scheduler.batch.len(),
    ensures
        states[at].scheduler.job is Some,
        states[at].scheduler.batch[i].job_id == states[at].scheduler.job->0.job_id,
        !states[at].scheduler.job->0.status.finished(),
{
    runs_are_coherent(states, steps, at);
}

/// A slot that is of no use is not looked for again until something happens: if no worker is
/// started and nothing is to be fetched, the scheduler stops looking for slots.
pub proof fn useless_slots_are_not_repeated<P>(
    scheduler: SchedulerView<P>,
    next: Option<JobView<P>>,
    batch: Seq<TaskView>,
)
    ensures
        ({
            let useless = EnqueueView::<P>::Start { job: None, task: None };
            &&& scheduler.enqueued().1 == useless ==> !scheduler.enqueued().0.has_work
            &&& scheduler.job_enqueued(next).1 == useless
                ==> !scheduler.job_enqueued(next).0.has_work
            &&& scheduler.batch_enqueued(batch).1 == useless
                ==> !scheduler.batch_enqueued(batch).0.has_work
        }),
{
}

/// A task whose database could not be backed up counts as if it had not been stepped, and the
/// scheduler looks for a slot to step it again.
pub proof fn failed_task_backups_are_retried<P>(system: System<P>, step: Step<P>)
    requires
        system.coherent(),
        system.allows(step),
        step matches Step::TaskDone { backup, .. } && backup is Failed,
    ensures
        system.after(step).scheduler.has_work,
        system.after(step).scheduler.job is Some,
        forall|status: MigrationTaskStatus| #[trigger]
            system.after(step).scheduler.job->0.progress[status]
                == system.scheduler.job->0.progress[status],
{
}

/// A worker that moved the job to another state, and could not back that up, is started again with
/// the next slot.
pub proof fn failed_job_backups_are_retried<P>(
    system: System<P>,
    answer: Option<MigrationJobStatus>,
    schema_backup: Backup,
    meta_backup: Backup,
)
    requires
        system.coherent(),
        system.allows(Step::JobDone { answer, schema_backup, meta_backup }),
        meta_backup is Failed || (system.transition->0 is Schema && schema_backup is Failed),
    ensures
        ({
            let after = system.after(Step::JobDone { answer, schema_backup, meta_backup });
            &&& after.scheduler.has_work
            &&& after.scheduler.enqueued().1 == (EnqueueView::Start {
                job: system.transition,
                task: None,
            })
        }),
{
}

/// Whatever the number of workers that work on a task, one after the other, writes to its database
/// are blocked whenever one of them steps it, and as long as the database holds the task,
/// unfinished: when a worker is started, when its transaction is committed, and when it reports.
/// Once the task is finished, writes are allowed again.
pub proof fn pending_tasks_block_writes<P>(
    states: Seq<TaskState>,
    rounds: Seq<TaskRound<P>>,
    at: int,
)
    requires
        is_history(states, rounds),
        0 <= at < states.len(),
    ensures
        states[at].guarded(),
        states[at].status is DryRunSuccess || states[at].status is DryRunFailure
            || states[at].status is Run ==> states[at].blocked,
        at > 0 && states[at].status.finished() ==> !states[at].blocked && !states[at].pending,
        at < rounds.len() ==> {
            &&& states[at].started(rounds[at]).blocked
            &&& states[at].committed(rounds[at]).blocked
            &&& states[at].released(rounds[at]).guarded()
        },
    decreases at,
{
    if at > 0 {
        pending_tasks_block_writes(states, rounds, at - 1);
        assert(states[at] == states[at - 1].after(rounds[at - 1]));
    }
}

/// The migration is applied to the schema database once, however often the workers of a job are
/// started for it: the first one leaves the database at a version at which it is not applied again.
pub proof fn schema_is_migrated_once(job_id: int, schema_version: int, attempts: nat)
    requires
        attempts > 0,
    ensures
        schema_version_after(job_id, schema_version, attempts) == job_id,
        schema_update(job_id, schema_version_after(job_id, schema_version, attempts)) is None,
        schema_migrations(job_id, schema_version, attempts) == if schema_version == job_id {
            0nat
        } else {
            1nat
        },
    decreases attempts,
{
    reveal_with_fuel(schema_version_after, 2);
    reveal_with_fuel(schema_migrations, 2);
    if attempts > 1 {
        schema_is_migrated_once(job_id, schema_version, (attempts - 1) as nat);
    }
}

/// The tasks that are started, one for each of `slots` slots.
pub open spec fn started_tasks<P>(scheduler: SchedulerView<P>, slots: nat) -> Seq<TaskView>
    decreases slots,
{
    if slots == 0 {
        Seq::empty()
    } else {
        let (next, enqueue) = scheduler.task_started(None);
        match enqueue {
            EnqueueView::Start { task: Some(work), .. } => seq![work.task] + started_tasks(
                next,
                (slots - 1) as nat,
            ),
            _ => Seq::empty(),
        }
    }
}

/// Each task of a batch is started exactly once, the last one first.
pub proof fn batches_are_started_once<P>(scheduler: SchedulerView<P>)
    ensures
        started_tasks(scheduler, scheduler.batch.len()) =~= scheduler.batch.reverse(),
    decreases scheduler.batch.len(),
{
    if scheduler.batch.len() > 0 {
        batches_are_started_once(scheduler.task_started(None).0);
    }
}

} // verus!
