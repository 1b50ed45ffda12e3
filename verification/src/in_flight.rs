//! The in-flight budget: a tokio semaphore with one permit per concurrent call.
//!
//! The semaphore has a single owner, so its permits move only through the
//! functions below.
use vstd::prelude::*;
use tokio::sync::Semaphore;

verus! {

/// A tokio semaphore.
#[verifier::external_type_specification]
#[verifier::external_body]
pub struct ExSemaphore(Semaphore);

/// The permits that a semaphore has left.
pub uninterp spec fn permits_left(semaphore: Semaphore) -> usize;

/// The most permits that a semaphore can have.
pub open spec fn max_permits() -> usize {
    usize::MAX / 8
}

/// `Semaphore::new`: a semaphore with that many permits. It panics beyond
/// [`max_permits`].
#[verifier::external_body]
pub(crate) fn new_semaphore(permits: usize) -> (semaphore: Semaphore)
    requires
        permits <= max_permits(),
    ensures
        permits_left(semaphore) == permits,
{
    Semaphore::new(permits)
}

/// `Semaphore::try_acquire`, with the permit taken out for good by
/// `SemaphorePermit::forget`: takes a permit if there is one left, and does not
/// wait otherwise.
#[verifier::external_body]
pub(crate) fn take_permit(semaphore: &mut Semaphore) -> (taken: bool)
    ensures
        taken == (permits_left(*old(semaphore)) > 0),
        permits_left(*final(semaphore)) == if taken {
            permits_left(*old(semaphore)) - 1
        } else {
            permits_left(*old(semaphore)) as int
        },
{
    match semaphore.try_acquire() {
        Ok(permit) => {
            permit.forget();
            true
        },
        Err(_) => false,
    }
}

/// `Semaphore::add_permits` of one permit. It panics where the semaphore has
/// [`max_permits`] already.
#[verifier::external_body]
pub(crate) fn return_permit(semaphore: &mut Semaphore)
    requires
        permits_left(*old(semaphore)) < max_permits(),
    ensures
        permits_left(*final(semaphore)) == permits_left(*old(semaphore)) + 1,
{
    semaphore.add_permits(1)
}

/// `Semaphore::available_permits`: the permits that are left.
#[verifier::external_body]
pub(crate) fn count_permits(semaphore: &Semaphore) -> (permits: usize)
    ensures
        permits == permits_left(*semaphore),
{
    semaphore.available_permits()
}

} // verus!
