//! What each operation does to what it is given, told by what goes in and what comes out.

use vstd::multiset::Multiset;
use vstd::prelude::*;

use crate::job::{JobView, TaskView};
use crate::scheduler::{Enqueue, EnqueueView, SchedulerView, MAX_CONCURRENT_JOBS};
use crate::status::{MigrationJobStatus, MigrationTaskStatus};
use crate::system::{is_run, Step, System};
use crate::work::{
    error_text, reported_task_status, schema_update, Backup, JobWork, JobWorkView, SteppedJobView,
    TaskWorkView, WorkResult, WorkResultView,
};

verus! {

/// Both are the same job, which may have gone on from one to the other.
pub open spec fn same_job<P>(a: JobView<P>, b: JobView<P>) -> bool {
    &&& a.job_id == b.job_id
    &&& a.schema == b.schema
    &&& a.migration == b.migration
}

/// Both are the same job, at the same point of its tasks.
pub open spec fn same_progress<P>(a: JobView<P>, b: JobView<P>) -> bool {
    &&& same_job(a, b)
    &&& forall|status: MigrationTaskStatus| #[trigger] a.progress[status] == b.progress[status]
}

/// Both are the same task, which may have gone on from one to the other.
pub open spec fn same_task(a: TaskView, b: TaskView) -> bool {
    &&& a.namespace == b.namespace
    &&& a.task_id == b.task_id
    &&& a.job_id == b.job_id
}

/// Some task of the job is in another state than the given one.
pub open spec fn some_task_elsewhere<P>(job: JobView<P>, status: MigrationTaskStatus) -> bool {
    exists|other: MigrationTaskStatus| other != status && #[trigger] job.progress[other] > 0
}

/// How many tasks of the job still have to be worked on in its phase.
pub open spec fn left_in_phase<P>(job: JobView<P>) -> nat {
    if job.status is WaitingDryRun {
        job.progress[MigrationTaskStatus::Enqueued]
    } else if job.status is WaitingRun {
        job.progress[MigrationTaskStatus::DryRunSuccess]
    } else {
        0
    }
}

/// The job is in the dry run, or in the run, and some task did not reach the end of that phase.
pub open spec fn waits_for_tasks<P>(job: JobView<P>) -> bool {
    ||| job.status is WaitingDryRun && some_task_elsewhere(job, MigrationTaskStatus::DryRunSuccess)
    ||| job.status is WaitingRun && some_task_elsewhere(job, MigrationTaskStatus::Success)
}

/// A task of the job failed in its phase, or the job failed or is over.
pub open spec fn stuck<P>(job: JobView<P>) -> bool {
    ||| job.status is WaitingDryRun && job.progress[MigrationTaskStatus::DryRunFailure] > 0
    ||| job.status is WaitingRun && job.progress[MigrationTaskStatus::Failure] > 0
    ||| job.status is DryRunFailure
    ||| job.status is RunSuccess
    ||| job.status is RunFailure
}

/// A worker reports its task in the state in which stepping left it, whatever that is, and with
/// the error that came with it. If the backup failed, it reports the task in the state in which it
/// found it. The task is otherwise the same.
pub proof fn tasks_are_reported_as_stepped<P>(
    work: TaskWorkView<P>,
    new_status: MigrationTaskStatus,
    error: Option<Seq<char>>,
    backup: Backup,
)
    ensures
        ({
            let done = work.stepped(new_status, error);
            let reported = done.task.with_status(
                reported_task_status(done.old_status, done.task.status, backup),
            );
            &&& done.old_status == work.task.status
            &&& done.error == error
            &&& done.task.status == new_status
            &&& same_task(done.task, work.task)
            &&& same_task(reported, work.task)
            &&& !(backup is Failed) ==> reported.status == new_status
            &&& backup is Failed ==> reported.status == work.task.status
        }),
{
}

/// A worker can work on an enqueued task, and on one that passed its dry run once the job is in the
/// run, and on no other. It blocks writes for an enqueued task, and allows them again when the task
/// is applied or failed for good.
pub proof fn workers_know_their_tasks<P>(
    work: TaskWorkView<P>,
    new_status: MigrationTaskStatus,
    error: Option<Seq<char>>,
)
    ensures
        work.runnable() <==> (work.task.status is Enqueued || (work.task.status is DryRunSuccess
            && work.job_status is WaitingRun)),
        work.blocks_writes() <==> work.task.status is Enqueued,
        work.stepped(new_status, error).releases_writes() <==> (new_status is Success
            || new_status is Failure),
{
}

/// A task that is reported is counted in the state in which it is reported, and no longer in the
/// one in which it was found. No other task is counted otherwise, and the rest of the job and the
/// tasks to start stay as they are.
pub proof fn reported_tasks_are_counted<P>(
    scheduler: SchedulerView<P>,
    old_status: MigrationTaskStatus,
    new_status: MigrationTaskStatus,
    in_flight: nat,
)
    requires
        scheduler.job is Some,
        scheduler.job->0.progress[old_status] > 0,
    ensures
        ({
            let before = scheduler.job->0;
            let after = scheduler.task_recorded(old_status, new_status, in_flight);
            let job = after.job->0;
            &&& after.job is Some
            &&& same_job(job, before)
            &&& job.status == before.status
            &&& old_status != new_status ==> job.progress[old_status] == before.progress[old_status]
                - 1
            &&& old_status != new_status ==> job.progress[new_status] == before.progress[new_status]
                + 1
            &&& old_status == new_status ==> same_progress(job, before)
            &&& forall|other: MigrationTaskStatus|
                other != old_status && other != new_status ==> #[trigger] job.progress[other]
                    == before.progress[other]
            &&& after.batch == scheduler.batch
            &&& after.workers == scheduler.workers
        }),
{
}

/// After a task is reported, the scheduler looks for a slot if tasks are left to start that were
/// fetched, if more tasks are left in the phase than there are slots in use, or if nothing is left
/// in the phase and no slot is in use.
pub proof fn reports_wake_the_scheduler_up<P>(
    scheduler: SchedulerView<P>,
    old_status: MigrationTaskStatus,
    new_status: MigrationTaskStatus,
    in_flight: nat,
)
    requires
        scheduler.job is Some,
        scheduler.job->0.progress[old_status] > 0,
    ensures
        ({
            let after = scheduler.task_recorded(old_status, new_status, in_flight);
            let left = left_in_phase(after.job->0);
            after.has_work <==> {
                ||| after.batch.len() > 0
                ||| left > in_flight
                ||| left == 0 && in_flight == 0
            }
        }),
{
}

/// A task can be reported if one is counted in the state in which it was found, and one more can be
/// counted in the state in which it is reported.
pub proof fn counted_tasks_can_be_reported<P>(
    job: JobView<P>,
    old_status: MigrationTaskStatus,
    new_status: MigrationTaskStatus,
)
    ensures
        job.can_move(old_status, new_status) <==> job.progress[old_status] > 0 && (old_status
            == new_status || job.progress[new_status] < usize::MAX),
{
}

/// A job that is stuck is not driven further, and any other one is.
pub proof fn stuck_jobs_are_not_driven<P>(job: JobView<P>)
    ensures
        job.steppable() <==> !stuck(job),
{
}

/// A task that is reported as failed in the phase of the job stops the job: it cannot be driven
/// further, and no worker is started to move it on.
pub proof fn failed_tasks_stop_the_job<P>(
    scheduler: SchedulerView<P>,
    old_status: MigrationTaskStatus,
    new_status: MigrationTaskStatus,
    in_flight: nat,
    work: JobWorkView<P>,
)
    requires
        scheduler.job is Some,
        scheduler.job->0.progress[old_status] > 0,
        (scheduler.job->0.status is WaitingRun && new_status is Failure) || (
        scheduler.job->0.status is WaitingDryRun && new_status is DryRunFailure),
    ensures
        ({
            let after = scheduler.task_recorded(old_status, new_status, in_flight);
            &&& stuck(after.job->0)
            &&& !after.job->0.steppable()
            &&& !(after.enqueued().1 matches EnqueueView::Start { job, .. } && job == Some(work))
        }),
{
    let after = scheduler.task_recorded(old_status, new_status, in_flight);
    assert(after.job->0.progress[new_status] > 0);
}

/// A job in which a task failed never ends, and the failure is never forgotten.
pub proof fn failures_are_kept<P>(system: System<P>, step: Step<P>)
    requires
        system.coherent(),
        system.allows(step),
        system.scheduler.job is Some,
        stuck(system.scheduler.job->0),
    ensures
        system.after(step).scheduler.job is Some,
        same_job(system.after(step).scheduler.job->0, system.scheduler.job->0),
        stuck(system.after(step).scheduler.job->0),
{
}

/// A task that a worker reports is counted as what stepping it led to, unless the backup failed.
pub proof fn outcomes_are_counted<P>(system: System<P>, step: Step<P>)
    requires
        system.coherent(),
        system.allows(step),
        step is TaskDone,
    ensures
        step matches Step::TaskDone { work, stepped, backup, .. } ==> {
            let before = system.scheduler.job->0.progress;
            let after = system.after(step).scheduler.job->0.progress;
            &&& backup is Failed ==> forall|status: MigrationTaskStatus|
                #[trigger] after[status] == before[status]
            &&& !(backup is Failed) ==> {
                &&& after[stepped] == before[stepped] + 1
                &&& after[work.task.status] == before[work.task.status] - 1
            }
        },
{
}

/// To move a job to another state changes its state, and nothing else of it. The same holds of a
/// task.
pub proof fn only_the_state_is_moved<P>(
    job: JobView<P>,
    status: MigrationJobStatus,
    task: TaskView,
    task_status: MigrationTaskStatus,
)
    ensures
        job.with_status(status).status == status,
        same_progress(job.with_status(status), job),
        task.with_status(task_status).status == task_status,
        same_task(task.with_status(task_status), task),
{
}

/// When a worker reports the state of the job, the job is in that state, and otherwise as it was.
/// It is dropped if it is over. Then the scheduler looks for a slot. Nothing else changes.
pub proof fn reported_states_are_taken_over<P>(
    scheduler: SchedulerView<P>,
    status: MigrationJobStatus,
)
    requires
        scheduler.job is Some || status is RunSuccess || status is RunFailure,
        scheduler.workers > 0,
    ensures
        ({
            let after = scheduler.joined().job_moved(status);
            &&& after.job is None <==> status is RunSuccess || status is RunFailure
            &&& after.job matches Some(job) ==> job.status == status && same_progress(
                job,
                scheduler.job->0,
            )
            &&& after.has_work
            &&& after.workers == scheduler.workers - 1
            &&& after.batch == scheduler.batch
        }),
{
}

/// When a worker reports a task, there is one worker less, and nothing else changes until the task
/// is counted.
pub proof fn reports_are_taken_once<P>(scheduler: SchedulerView<P>)
    requires
        scheduler.workers > 0,
    ensures
        scheduler.joined().workers == scheduler.workers - 1,
        scheduler.joined().job == scheduler.job,
        scheduler.joined().batch == scheduler.batch,
        scheduler.joined().has_work == scheduler.has_work,
{
}

/// A message changes nothing but whether a slot is looked for: one is, if no job is driven. If one
/// is driven, the message does not raise the flag, and lowers it only if a worker runs.
pub proof fn messages_change_the_flag_only<P>(scheduler: SchedulerView<P>)
    ensures
        scheduler.notified().job == scheduler.job,
        scheduler.notified().batch == scheduler.batch,
        scheduler.notified().workers == scheduler.workers,
        scheduler.job is None ==> scheduler.notified().has_work,
        scheduler.job is Some && scheduler.workers == 0 ==> scheduler.notified().has_work
            == scheduler.has_work,
        scheduler.job is Some && scheduler.workers > 0 ==> !scheduler.notified().has_work,
{
}

/// A scheduler is at rest if it looks for no slot and no worker runs.
pub proof fn rest_is_nothing_to_wait_for<P>(scheduler: SchedulerView<P>)
    ensures
        scheduler.at_rest() <==> !scheduler.has_work && scheduler.workers == 0,
{
}

/// How a slot is used: what the scheduler was before, what it is after, and what it answers.
/// - A job is asked for if there is none.
/// - Tasks are asked for if the job waits for some, and none that was fetched is left to start.
/// - Otherwise workers are started, each of which is counted. A task that is started is taken from
///   the end of the batch. A job for which a worker is started goes into transition, and is
///   otherwise the same. The scheduler goes on to look for a slot only after a task was started
///   alone.
pub open spec fn slot_used<P>(
    before: SchedulerView<P>,
    after: SchedulerView<P>,
    answer: EnqueueView<P>,
) -> bool {
    match answer {
        EnqueueView::FetchJob => before.job is None && after == before,
        EnqueueView::FetchBatch { job_id, status, limit } => {
            &&& before.job matches Some(current)
            &&& job_id == current.job_id
            &&& limit == 50
            &&& current.status is WaitingDryRun && status is Enqueued || current.status is WaitingRun
                && status is DryRunSuccess
            &&& before.batch.len() == 0
            &&& after == before
        },
        EnqueueView::Start { job, task } => {
            &&& before.job is Some <==> after.job is Some
            &&& before.job matches Some(current) ==> {
                &&& same_progress(after.job->0, current)
                &&& job is Some ==> after.job->0.status is WaitingTransition
                &&& job is None ==> after.job->0.status == current.status
            }
            &&& job is Some || task is Some ==> before.job is Some
            &&& task is None ==> after.batch == before.batch
            &&& task matches Some(work) ==> {
                &&& after.batch.push(work.task) == before.batch
                &&& work.migration == before.job->0.migration
                &&& work.job_status == after.job->0.status
            }
            &&& after.workers == before.workers + if job is Some {
                1int
            } else {
                0int
            } + if task is Some {
                1int
            } else {
                0int
            }
            &&& after.has_work <==> before.has_work && job is None && task is Some
        },
    }
}

/// Every slot is used for what the scheduler knows, wherever it got it from: what it had, the job
/// that the store gave, or the tasks that the store gave.
pub proof fn slots_are_used_for_what_is_known<P>(
    scheduler: SchedulerView<P>,
    next: JobView<P>,
    batch: Seq<TaskView>,
)
    ensures
        slot_used(scheduler, scheduler.enqueued().0, scheduler.enqueued().1),
        slot_used(
            SchedulerView { job: Some(next), ..scheduler },
            scheduler.job_enqueued(Some(next)).0,
            scheduler.job_enqueued(Some(next)).1,
        ),
        scheduler.job is Some ==> slot_used(
            SchedulerView { batch, ..scheduler },
            scheduler.batch_enqueued(batch).0,
            scheduler.batch_enqueued(batch).1,
        ),
{
    assert(scheduler.batch.len() > 0 ==> scheduler.batch.drop_last().push(scheduler.batch.last())
        =~= scheduler.batch);
    assert(batch.len() > 0 ==> batch.drop_last().push(batch.last()) =~= batch);
}

/// What is due for a job is done with the next slot. A worker is started for the job if and only if
/// it waits for no task in its phase: all passed the dry run, the run is to be started, or all
/// applied the migration. As long as a task is elsewhere, tasks are fetched, or started if some
/// were fetched.
pub proof fn what_is_due_is_done<P>(scheduler: SchedulerView<P>)
    requires
        scheduler.job is Some,
    ensures
        ({
            let job = scheduler.job->0;
            match scheduler.enqueued().1 {
                EnqueueView::FetchJob => false,
                EnqueueView::FetchBatch { .. } => waits_for_tasks(job) && scheduler.batch.len() == 0,
                EnqueueView::Start { job: work, task } => {
                    &&& work is Some <==> !waits_for_tasks(job) && (job.status is WaitingDryRun
                        || job.status is DryRunSuccess || job.status is WaitingRun)
                    &&& task is Some <==> scheduler.batch.len() > 0 && (waits_for_tasks(job)
                        || job.status is DryRunSuccess)
                    &&& !(waits_for_tasks(job) && scheduler.batch.len() == 0)
                },
            }
        }),
{
    let job = scheduler.job->0;
    assert(job.all_in(MigrationTaskStatus::DryRunSuccess) <==> !some_task_elsewhere(
        job,
        MigrationTaskStatus::DryRunSuccess,
    ));
    assert(job.all_in(MigrationTaskStatus::Success) <==> !some_task_elsewhere(
        job,
        MigrationTaskStatus::Success,
    ));
}

/// A worker that is started for a job is the one for the state of the job, and is told which job it
/// works for. The one that migrates the schema database is told the schema and the migration of
/// that job.
pub proof fn job_workers_know_their_job<P>(scheduler: SchedulerView<P>, work: JobWorkView<P>)
    requires
        scheduler.job is Some,
        scheduler.enqueued().1 matches EnqueueView::Start { job, .. } && job == Some(work),
    ensures
        match work {
            JobWorkView::DryRun { job_id, old_status } => {
                &&& scheduler.job->0.status is WaitingDryRun
                &&& job_id == scheduler.job->0.job_id
                &&& old_status == scheduler.job->0.status
            },
            JobWorkView::StartRun { job_id } => {
                &&& scheduler.job->0.status is DryRunSuccess
                &&& job_id == scheduler.job->0.job_id
            },
            JobWorkView::Schema { job_id, schema, migration } => {
                &&& scheduler.job->0.status is WaitingRun
                &&& job_id == scheduler.job->0.job_id
                &&& schema == scheduler.job->0.schema
                &&& migration == scheduler.job->0.migration
            },
        },
{
}

/// A job that the store gives is the current job from then on, whatever it is, and is driven as if
/// it had been so before: no other one is asked for, and the slot is used for it. Without a job the
/// scheduler stops looking for slots, and nothing is started.
pub proof fn given_jobs_are_driven<P>(scheduler: SchedulerView<P>, next: JobView<P>)
    ensures
        ({
            let (after, answer) = scheduler.job_enqueued(Some(next));
            &&& after.job is Some
            &&& same_progress(after.job->0, next)
            &&& !(answer is FetchJob)
            &&& (after, answer) == (SchedulerView { job: Some(next), ..scheduler }).enqueued()
        }),
        ({
            let (after, answer) = scheduler.job_enqueued(None);
            &&& answer matches EnqueueView::Start { job, task } && job is None && task is None
            &&& !after.has_work
            &&& after.job == scheduler.job
            &&& after.batch == scheduler.batch
            &&& after.workers == scheduler.workers
        }),
{
}

/// Tasks that the store gives are started as they are given: the last one at once, and the others
/// stay, in their order. Without any the scheduler stops looking for slots, and nothing is started.
pub proof fn given_tasks_are_started<P>(scheduler: SchedulerView<P>, batch: Seq<TaskView>)
    requires
        scheduler.job is Some,
    ensures
        ({
            let (after, answer) = scheduler.batch_enqueued(batch);
            match answer {
                EnqueueView::Start { job: None, task: Some(work) } => {
                    &&& after.batch.push(work.task) == batch
                    &&& after.has_work == scheduler.has_work
                    &&& after.workers == scheduler.workers + 1
                },
                EnqueueView::Start { job: None, task: None } => {
                    &&& batch.len() == 0
                    &&& after.batch.len() == 0
                    &&& !after.has_work
                    &&& after.workers == scheduler.workers
                },
                _ => false,
            }
        }),
        scheduler.batch_enqueued(batch).0.job == scheduler.job,
{
    assert(batch.len() > 0 ==> batch.drop_last().push(batch.last()) =~= batch);
}

/// The tasks that the next slots start, up to `slots` of them.
pub open spec fn started_by_slots<P>(scheduler: SchedulerView<P>, slots: nat) -> Seq<TaskView>
    decreases slots,
{
    if slots == 0 {
        Seq::empty()
    } else {
        let (next, answer) = scheduler.enqueued();
        match answer {
            EnqueueView::Start { task: Some(work), .. } => seq![work.task] + started_by_slots(
                next,
                (slots - 1) as nat,
            ),
            _ => Seq::empty(),
        }
    }
}

/// The slots that follow start every task of the batch once, the last one first, and fetch more
/// only after that.
pub proof fn slots_start_the_batch<P>(scheduler: SchedulerView<P>, slots: nat)
    requires
        scheduler.job is Some,
        waits_for_tasks(scheduler.job->0),
        slots >= scheduler.batch.len(),
    ensures
        started_by_slots(scheduler, slots) =~= scheduler.batch.reverse(),
    decreases slots,
{
    what_is_due_is_done(scheduler);
    slots_are_used_for_what_is_known(scheduler, scheduler.job->0, scheduler.batch);
    if scheduler.batch.len() > 0 {
        let after = scheduler.enqueued().0;
        assert(after.job->0.progress == scheduler.job->0.progress);
        slots_start_the_batch(after, (slots - 1) as nat);
    }
}

/// Every task of a batch is started exactly once after the store gave it, the last one first: one
/// at once, and the others by the slots that follow. No other task is.
pub proof fn batches_are_started_as_given<P>(
    scheduler: SchedulerView<P>,
    batch: Seq<TaskView>,
    work: TaskWorkView<P>,
    slots: nat,
)
    requires
        scheduler.job is Some,
        waits_for_tasks(scheduler.job->0),
        scheduler.batch_enqueued(batch).1 == (EnqueueView::Start { job: None, task: Some(work) }),
        slots + 1 >= batch.len(),
    ensures
        seq![work.task] + started_by_slots(scheduler.batch_enqueued(batch).0, slots)
            =~= batch.reverse(),
{
    given_tasks_are_started(scheduler, batch);
    let after = scheduler.batch_enqueued(batch).0;
    slots_start_the_batch(after, slots);
}

/// The tasks that the store gave until then.
pub open spec fn tasks_given<P>(steps: Seq<Step<P>>, at: int) -> Multiset<TaskView>
    decreases at,
{
    if at <= 0 {
        Multiset::empty()
    } else {
        match steps[at - 1] {
            Step::Batch { batch } => tasks_given(steps, at - 1).add(batch.to_multiset()),
            _ => tasks_given(steps, at - 1),
        }
    }
}

/// The tasks that were started until then.
pub open spec fn tasks_started<P>(
    states: Seq<System<P>>,
    steps: Seq<Step<P>>,
    at: int,
) -> Multiset<TaskView>
    decreases at,
{
    if at <= 0 {
        Multiset::empty()
    } else {
        match states[at - 1].answer(steps[at - 1]) {
            Some(EnqueueView::Start { task: Some(work), .. }) => tasks_started(
                states,
                steps,
                at - 1,
            ).insert(work.task),
            _ => tasks_started(states, steps, at - 1),
        }
    }
}

/// At every point of a run, each task that the store gave was started once, or is left in the batch.
/// No other task was started.
pub proof fn given_tasks_are_started_once<P>(states: Seq<System<P>>, steps: Seq<Step<P>>, at: int)
    requires
        is_run(states, steps),
        0 <= at < states.len(),
    ensures
        tasks_given(steps, at) =~= tasks_started(states, steps, at).add(
            states[at].scheduler.batch.to_multiset(),
        ),
    decreases at,
{
    broadcast use vstd::seq_lib::group_to_multiset_ensures;

    if at == 0 {
        assert(states[0].scheduler.batch =~= Seq::empty());
    } else {
        given_tasks_are_started_once(states, steps, at - 1);
        let before = states[at - 1];
        let step = steps[at - 1];
        assert(before.allows(step) && states[at] == before.after(step));
        let next = match step {
            Step::NextJob { next: Some(next) } => next,
            _ => before.scheduler.job->0,
        };
        let batch = match step {
            Step::Batch { batch } => batch,
            _ => Seq::empty(),
        };
        slots_are_used_for_what_is_known(before.scheduler, next, batch);
        if step is Batch {
            assert(before.scheduler.batch =~= Seq::empty());
        }
    }
}

/// A job stays the same job as long as it is driven: no step changes its id, its schema or its
/// migration, and none but the report of a task changes how many tasks are in which state.
pub proof fn jobs_stay_the_same<P>(system: System<P>, step: Step<P>)
    requires
        system.coherent(),
        system.allows(step),
        system.scheduler.job is Some,
        system.after(step).scheduler.job is Some,
    ensures
        same_job(system.after(step).scheduler.job->0, system.scheduler.job->0),
        !(step is TaskDone) ==> same_progress(
            system.after(step).scheduler.job->0,
            system.scheduler.job->0,
        ),
{
}

/// The step gives the job to the scheduler.
pub open spec fn gives<P>(step: Step<P>, job: JobView<P>) -> bool {
    step matches Step::NextJob { next } && next is Some && same_job(next->0, job)
}

/// At every point of a run, the current job is one that the store gave, with that id, schema and
/// migration.
pub proof fn current_jobs_were_given<P>(states: Seq<System<P>>, steps: Seq<Step<P>>, at: int)
    requires
        is_run(states, steps),
        0 <= at < states.len(),
        states[at].scheduler.job is Some,
    ensures
        exists|i: int|
            0 <= i < at && gives(#[trigger] steps[i], states[at].scheduler.job->0),
    decreases at,
{
    if at > 0 {
        let before = states[at - 1];
        let step = steps[at - 1];
        crate::laws::runs_are_coherent(states, steps, at - 1);
        if before.scheduler.job is Some {
            current_jobs_were_given(states, steps, at - 1);
            jobs_stay_the_same(before, step);
            let i = choose|i: int|
                0 <= i < at - 1 && gives(#[trigger] steps[i], before.scheduler.job->0);
            assert(gives(steps[i], states[at].scheduler.job->0));
        } else {
            given_jobs_are_driven(before.scheduler, (step->next)->0);
            assert(gives(steps[at - 1], states[at].scheduler.job->0));
        }
    }
}

/// The worker that migrates the schema database is told the schema and the migration with which
/// the store gave the job.
pub proof fn schema_workers_were_given<P>(
    states: Seq<System<P>>,
    steps: Seq<Step<P>>,
    at: int,
    work: JobWorkView<P>,
)
    requires
        is_run(states, steps),
        0 <= at < steps.len(),
        states[at].starts_job(steps[at], work),
        work is Schema,
    ensures
        exists|i: int|
            0 <= i <= at && ((#[trigger] steps[i]) matches Step::NextJob { next } && next is Some
                && work == (JobWorkView::Schema {
                job_id: next->0.job_id,
                schema: next->0.schema,
                migration: next->0.migration,
            })),
{
    current_jobs_were_given_or_are(states, steps, at);
    let job = states[at].job_at(steps[at]);
    let i = choose|i: int| 0 <= i <= at && gives(#[trigger] steps[i], job);
    assert(work == (JobWorkView::Schema {
        job_id: job.job_id,
        schema: job.schema,
        migration: job.migration,
    }));
    assert(steps[i] is NextJob);
}

/// The job that a step uses a slot for was given by the store, by then or by that step.
proof fn current_jobs_were_given_or_are<P>(
    states: Seq<System<P>>,
    steps: Seq<Step<P>>,
    at: int,
)
    requires
        is_run(states, steps),
        0 <= at < steps.len(),
        states[at].answer(steps[at]) matches Some(EnqueueView::Start { job, .. }) && job is Some,
    ensures
        exists|i: int|
            0 <= i <= at && gives(#[trigger] steps[i], states[at].job_at(steps[at])),
{
    let step = steps[at];
    assert(states[at].allows(step));
    if step is NextJob {
        assert(gives(steps[at], states[at].job_at(step)));
    } else {
        current_jobs_were_given(states, steps, at);
        let i = choose|i: int|
            0 <= i < at && gives(#[trigger] steps[i], states[at].scheduler.job->0);
        assert(gives(steps[i], states[at].job_at(step)));
    }
}

/// At every point of a run, each job that was registered is in the store, is the current one, or is
/// over: none is lost, and none is driven twice at a time.
pub proof fn jobs_are_accounted_for<P>(states: Seq<System<P>>, steps: Seq<Step<P>>, at: int)
    requires
        is_run(states, steps),
        0 <= at < states.len(),
    ensures
        states[at].accepted == states[at].registered + states[at].ended
            + if states[at].scheduler.job is Some {
            1nat
        } else {
            0nat
        },
{
    crate::laws::runs_are_coherent(states, steps, at);
}

/// Every task of a job is in the given state if and only if as many tasks are in it as there are.
pub proof fn all_tasks_are_all_that_are_counted<P>(job: JobView<P>, status: MigrationTaskStatus)
    ensures
        job.all_in(status) <==> job.progress[status]
            == job.progress[MigrationTaskStatus::Enqueued]
            + job.progress[MigrationTaskStatus::DryRunSuccess]
            + job.progress[MigrationTaskStatus::DryRunFailure]
            + job.progress[MigrationTaskStatus::Run]
            + job.progress[MigrationTaskStatus::Success]
            + job.progress[MigrationTaskStatus::Failure],
        job.pending() == left_in_phase(job),
{
    let progress = job.progress;
    if job.all_in(status) {
        assert(status != MigrationTaskStatus::Enqueued ==> progress[MigrationTaskStatus::Enqueued]
            == 0);
        assert(status != MigrationTaskStatus::Run ==> progress[MigrationTaskStatus::Run] == 0);
    } else {
        let other = choose|other: MigrationTaskStatus|
            other != status && #[trigger] progress[other] != 0;
        match other {
            MigrationTaskStatus::Enqueued => {},
            MigrationTaskStatus::DryRunSuccess => {},
            MigrationTaskStatus::DryRunFailure => {},
            MigrationTaskStatus::Run => {},
            MigrationTaskStatus::Success => {},
            MigrationTaskStatus::Failure => {},
        }
    }
}

/// What a worker reports of the job, for each way in which its work can turn out: the state to
/// which it moved the job, or, if a backup that it waits for failed, the state from which it did.
pub proof fn job_workers_report_what_they_did<P>(
    job_id: int,
    old_status: MigrationJobStatus,
    schema: Seq<char>,
    migration: P,
    answer: Option<MigrationJobStatus>,
    schema_backup: Backup,
    meta_backup: Backup,
)
    ensures
        ({
            let dry_run = JobWorkView::<P>::DryRun { job_id, old_status };
            let reported = dry_run.reported(answer, schema_backup, meta_backup);
            &&& answer is None ==> reported == old_status
            &&& answer matches Some(status) ==> {
                &&& status is DryRunSuccess && meta_backup is Failed ==> reported == old_status
                &&& !(meta_backup is Failed) ==> reported == status
                &&& !(status is DryRunSuccess) ==> reported == status
            }
        }),
        ({
            let start_run = JobWorkView::<P>::StartRun { job_id };
            let reported = start_run.reported(answer, schema_backup, meta_backup);
            &&& meta_backup is Failed ==> reported is DryRunSuccess
            &&& !(meta_backup is Failed) ==> reported is WaitingRun
        }),
        ({
            let run_schema = JobWorkView::Schema { job_id, schema, migration };
            let reported = run_schema.reported(answer, schema_backup, meta_backup);
            &&& schema_backup is Failed || meta_backup is Failed ==> reported is WaitingRun
            &&& !(schema_backup is Failed || meta_backup is Failed) ==> reported is RunSuccess
        }),
{
}

/// A worker that waits for a backup reports the state before if it failed. Whatever it waits for,
/// it reports one of the two.
pub proof fn failed_backups_fall_back(job: SteppedJobView, backup: Backup)
    ensures
        job.awaits_backup && backup is Failed ==> job.reported(backup) == job.fallback,
        !job.awaits_backup || !(backup is Failed) ==> job.reported(backup) == job.status,
{
}

/// The migration is applied to a schema database at any version but that of the job, and then the
/// database is at that version.
pub proof fn schemas_are_marked(job_id: int, schema_version: int)
    ensures
        schema_update(job_id, schema_version) is None <==> schema_version == job_id,
        schema_update(job_id, schema_version) matches Some(version) ==> version == job_id,
        schema_update(job_id, job_id) is None,
{
}

/// The only worker for a job that keeps its slot is the one that migrates the schema database.
pub proof fn schema_workers_keep_their_slot<P>(work: JobWorkView<P>)
    ensures
        work.keeps_slot() <==> work is Schema,
{
}

/// A state is final for a task if the migration was applied or cannot be, and for a job alike. A
/// job waits for enqueued tasks in the dry run, for those that passed it in the run, and for none
/// in any other state.
pub proof fn states_mean_what_they_say(task: MigrationTaskStatus, job: MigrationJobStatus)
    ensures
        task.finished() <==> task is Success || task is Failure,
        job.finished() <==> job is RunSuccess || job is RunFailure,
        job is WaitingDryRun <==> job.awaited() == Some(MigrationTaskStatus::Enqueued),
        job is WaitingRun <==> job.awaited() == Some(MigrationTaskStatus::DryRunSuccess),
        !(job is WaitingDryRun || job is WaitingRun) <==> job.awaited() is None,
{
}

/// There are ten worker slots. Those that are not available are in use.
pub proof fn slots_are_available_or_in_use(available: nat)
    requires
        available <= MAX_CONCURRENT_JOBS,
    ensures
        (MAX_CONCURRENT_JOBS - available) + available == 10,
{
}

/// An answer stands for itself: what is to be fetched is what it names, and the workers to start
/// are those that it holds.
pub proof fn answers_are_taken_literally<P>(enqueue: Enqueue<P>)
    ensures
        match enqueue {
            Enqueue::FetchJob => enqueue@ is FetchJob,
            Enqueue::FetchBatch { job_id, status, limit } => enqueue@ == (
            EnqueueView::<P>::FetchBatch { job_id: job_id as int, status, limit: limit as nat }),
            Enqueue::Start { job, task } => enqueue@ matches EnqueueView::Start {
                job: job_view,
                task: task_view,
            } && (job is None <==> job_view is None) && (task is None <==> task_view is None) && (
            job matches Some(work) ==> job_view == Some(work@)) && (task matches Some(work)
                ==> task_view == Some(work@)),
        },
{
}

/// A report, and a worker for a job, stand for themselves too.
pub proof fn reports_are_taken_literally<P>(result: WorkResult, work: JobWork<P>)
    ensures
        match result {
            WorkResult::Task { old_status, task, error } => result@ matches WorkResultView::Task {
                old_status: old_view,
                task: task_view,
                error: error_view,
            } && old_view == old_status && task_view == task@ && (error is None
                <==> error_view is None) && (error matches Some(text) ==> error_view == Some(text@)),
            WorkResult::Job { status } => result@ == (WorkResultView::Job { status }),
        },
        match work {
            JobWork::DryRun(dry_run) => work@ == (JobWorkView::<P>::DryRun {
                job_id: dry_run.job_id as int,
                old_status: dry_run.old_status,
            }),
            JobWork::StartRun(start_run) => work@ == (JobWorkView::<P>::StartRun {
                job_id: start_run.job_id as int,
            }),
            JobWork::Schema(run_schema) => work@ == (JobWorkView::Schema {
                job_id: run_schema.job_id as int,
                schema: run_schema.schema@,
                migration: *run_schema.migration,
            }),
        },
{
}

/// The text of an error is kept.
pub proof fn errors_are_kept(error: Option<String>)
    ensures
        error is None <==> error_text(error) is None,
        error matches Some(text) ==> error_text(error) == Some(text@),
{
}

} // verus!
