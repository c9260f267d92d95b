use std::sync::Arc;
use tokio::sync::{OwnedSemaphorePermit, Semaphore, TryAcquireError};
use vstd::prelude::*;

verus! {

#[verifier::external_type_specification]
#[verifier::external_body]
pub struct ExSemaphore(Semaphore);

#[verifier::external_type_specification]
#[verifier::external_body]
pub struct ExOwnedSemaphorePermit(OwnedSemaphorePermit);

#[verifier::external_type_specification]
#[verifier::external_body]
pub struct ExTryAcquireError(TryAcquireError);

/// The most connections a limiter can be made for: tokio's `Semaphore::MAX_PERMITS`,
/// which its documentation gives as `usize::MAX >> 3`.
pub const MAX_CONNECTIONS: usize = usize::MAX / 8;

/// The number of permits a semaphore was created with.
pub uninterp spec fn semaphore_permits(s: Semaphore) -> nat;

/// `Semaphore::new(permits)`: tokio creates the semaphore "with the initial
/// number of permits", which is what the contract states. tokio panics when
/// `permits` exceeds `Semaphore::MAX_PERMITS`, so that input is left out.
/// Nothing is stated of how many permits are free later: that changes as
/// permits are taken and dropped by other tasks.
#[verifier::external_body]
fn new_semaphore(permits: usize) -> (s: Semaphore)
    requires
        permits <= MAX_CONNECTIONS,
    ensures
        semaphore_permits(s) == permits,
{
    Semaphore::new(permits)
}

/// The semaphore a permit was taken from, which gets the permit back when the
/// permit is dropped.
pub uninterp spec fn permit_semaphore(p: OwnedSemaphorePermit) -> Semaphore;

/// `Semaphore::try_acquire_owned` on a clone of the `Arc`: takes one permit when
/// one is free. tokio builds the permit it returns from that same `Arc`, so a
/// permit that comes back belongs to `semaphore`. Whether one is free depends on
/// what other tasks hold at that moment, so which of `Ok` and `Err` comes back
/// is not stated.
#[verifier::external_body]
fn try_acquire_permit(semaphore: &Arc<Semaphore>) -> (r: Result<OwnedSemaphorePermit, TryAcquireError>)
    ensures
        r matches Ok(p) ==> permit_semaphore(p) == **semaphore,
{
    Arc::clone(semaphore).try_acquire_owned()
}

/// What the limiter answers to a new connection.
pub enum Admission {
    /// A permit was free: the connection is served, and the permit is held
    /// until the connection ends.
    Admitted(OwnedSemaphorePermit),
    /// No permit was free: the connection is dropped.
    Rejected,
}

/// Bounds the number of connections served at the same time.
pub struct ConnectionLimiter {
    semaphore: Arc<Semaphore>,
    capacity: usize,
}

impl ConnectionLimiter {
    /// The recorded limit is the number of permits its semaphore was created with.
    #[verifier::type_invariant]
    spec fn capacity_matches_permits(self) -> bool {
        self.capacity == semaphore_permits(*self.semaphore)
    }

    /// The number of connections the limiter was made for.
    pub closed spec fn spec_capacity(&self) -> nat {
        self.capacity as nat
    }

    /// The semaphore whose permits the limiter hands out.
    pub closed spec fn spec_semaphore(&self) -> Semaphore {
        *self.semaphore
    }

    /// The number of permits the limiter's semaphore was created with.
    pub closed spec fn spec_permits(&self) -> nat {
        semaphore_permits(*self.semaphore)
    }

    /// A limiter that serves at most `max_connections` connections at a time.
    pub fn new(max_connections: usize) -> (l: Self)
        requires
            max_connections <= MAX_CONNECTIONS,
        ensures
            l.spec_capacity() == max_connections,
            l.spec_permits() == max_connections,
    {
        ConnectionLimiter { semaphore: Arc::new(new_semaphore(max_connections)), capacity: max_connections }
    }

    /// The number of permits the limiter was made with.
    pub fn capacity(&self) -> (c: usize)
        ensures
            c == self.spec_capacity(),
            c == self.spec_permits(),
    {
        proof {
            use_type_invariant(self);
        }
        self.capacity
    }

    /// Asks for a permit for a new connection; the answer depends on how many
    /// connections hold one at this moment.
    pub fn try_admit(&self) -> (a: Admission)
        ensures
            a matches Admission::Admitted(p) ==> permit_semaphore(p) == self.spec_semaphore(),
    {
        admission_of(try_acquire_permit(&self.semaphore))
    }
}

/// The answer to a new connection, given what the semaphore returned.
pub fn admission_of(acquired: Result<OwnedSemaphorePermit, TryAcquireError>) -> (a: Admission)
    ensures
        match acquired {
            Ok(permit) => a == Admission::Admitted(permit),
            Err(_) => a is Rejected,
        },
{
    match acquired {
        Ok(permit) => Admission::Admitted(permit),
        Err(_) => Admission::Rejected,
    }
}

} // verus!
