//! What is taken on trust of tokio's semaphore, whose permits are the worker slots.

use tokio::sync::Semaphore;
use vstd::prelude::*;

verus! {

/// `tokio::sync::Semaphore`. Nothing is known of what is inside one.
#[verifier::external_type_specification]
#[verifier::external_body]
pub struct ExSemaphore(Semaphore);

/// How many permits a semaphore was made with.
pub uninterp spec fn initial_permits(semaphore: Semaphore) -> nat;

/// `tokio::sync::Semaphore::new` makes a semaphore with the given number of permits. It panics
/// if there are more than `Semaphore::MAX_PERMITS`, which is `usize::MAX >> 3`.
pub assume_specification[ Semaphore::new ](permits: usize) -> (semaphore: Semaphore)
    requires
        permits <= usize::MAX / 8,
    ensures
        initial_permits(semaphore) == permits,
;

/// `tokio::sync::Semaphore::available_permits` reads how many permits are available. That changes
/// whenever a permit is taken, given back, added or forgotten, on any thread, so nothing is
/// claimed of the number.
pub assume_specification[ Semaphore::available_permits ](semaphore: &Semaphore) -> (available:
    usize)
;

} // verus!
