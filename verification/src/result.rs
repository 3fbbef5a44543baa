//! The result of an access that may find its target poisoned.
//!
//! Poisoning is advice, not denial: the poisoned variant carries the same
//! payload as the healthy one, and the caller decides whether to go on.

use vstd::prelude::*;

verus! {

/// The payload of an access that found its target poisoned.
#[derive(Debug)]
pub struct PoisonError<T> {
    data: T,
}

/// `Ok` for a healthy target, `Err` for a poisoned one; the payload is there
/// either way.
pub type LockResult<T> = Result<T, PoisonError<T>>;

impl<T> PoisonError<T> {
    /// The payload that the error carries.
    pub closed spec fn inner(&self) -> T {
        self.data
    }

    /// Once the error is done with, so is its payload.
    pub broadcast proof fn lemma_resolved_inner(self)
        ensures
            #[trigger] has_resolved(self) ==> has_resolved(self.inner()),
    {
    }

    /// Marks `data` as coming from a poisoned target.
    pub fn new(data: T) -> (error: PoisonError<T>)
        ensures
            error.inner() == data,
        no_unwind
    {
        PoisonError { data }
    }

    /// Gives the payload back, dropping the mark.
    pub fn into_inner(self) -> (data: T)
        ensures
            data == self.inner(),
        no_unwind
    {
        self.data
    }

    /// Looks at the payload.
    pub fn get_ref(&self) -> (data: &T)
        ensures
            *data == self.inner(),
        no_unwind
    {
        &self.data
    }

    /// Borrows the payload mutably. What the borrow ends with is what the
    /// error then carries.
    pub fn get_mut(&mut self) -> (data: &mut T)
        ensures
            *data == old(self).inner(),
            final(self).inner() == *final(data),
        no_unwind
    {
        &mut self.data
    }
}

/// What a result carries, whichever variant it is.
pub open spec fn payload<T>(result: LockResult<T>) -> T {
    match result {
        Ok(data) => data,
        Err(error) => error.inner(),
    }
}

/// Applies `f` to the payload of `result` and keeps the variant: healthy
/// stays healthy, poisoned stays poisoned.
pub fn map_result<T, U, F>(result: LockResult<T>, f: F) -> (mapped: LockResult<U>) where
    F: FnOnce(T) -> U,

    requires
        call_requires(f, (payload(result),)),
    ensures
        mapped is Err <==> result is Err,
        call_ensures(f, (payload(result),), payload(mapped)),
{
    match result {
        Ok(data) => Ok(f(data)),
        Err(error) => Err(PoisonError::new(f(error.into_inner()))),
    }
}

} // verus!
