# migration_scheduler

A scheduler for migrations of schemas that many databases share, verified with
[Verus](https://github.com/verus-lang/verus).

A migration of a schema database becomes a job. The job has a task for each database that shares
the schema. It tries the migration on each of them first, in a dry run, then applies it to each of
them, and to the schema database last.

- `src/` decides, and is verified: `scheduler` for the scheduler, `work` for its workers, `job` and
  `status` for the data. `system` and `laws` state and prove what holds of a scheduler together
  with its store and workers. `semaphore` is what is taken on trust of tokio's semaphore.
- `app/` does what is decided, on tokio: it waits, talks to the databases, and runs the workers.
- `tests/` runs the library, with a store and databases in memory.
