//! A scheduler for migrations of schemas that many databases share.
//!
//! A migration of a schema database becomes a job, with a task for each database that shares the
//! schema. The job first tries the migration on each of them, in a dry run. If all of those pass,
//! it applies the migration to each of them, and to the schema database in the end.
//!
//! The crate decides what happens next. It does not wait, nor talk to a database: [`scheduler`]
//! is told what happened and answers what to do, [`work`] does the same for the workers that the
//! scheduler starts. [`job`] and [`status`] hold the data, and [`semaphore`] what is taken on
//! trust of the semaphore that limits how many workers run at a time. [`system`] puts a scheduler
//! next to a store and workers. [`rules`] proves what each operation does to what it is given, and
//! [`laws`] what holds of all of them together.

pub mod job;
pub mod laws;
pub mod rules;
pub mod scheduler;
pub mod semaphore;
pub mod status;
pub mod system;
pub mod work;
