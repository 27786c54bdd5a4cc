//! How a unit of work on a database connection is closed.

use vstd::prelude::*;

verus! {

/// How a transaction ends.
#[derive(Debug, Clone, Copy, PartialEq, Eq, Structural)]
pub enum Completion {
    Commit,
    Rollback,
}

/// How a transaction ends after its work: committed when the work
/// succeeded, rolled back when it failed.
pub fn completion(work_succeeded: bool) -> (end: Completion)
    ensures
        end == if work_succeeded {
            Completion::Commit
        } else {
            Completion::Rollback
        },
{
    if work_succeeded {
        Completion::Commit
    } else {
        Completion::Rollback
    }
}

/// What a transaction returns, given what its work returned and how closing
/// it went: a failure to close comes first; otherwise the work's own result.
pub fn settle<T, E>(work: Result<T, E>, closing: Result<(), E>) -> (outcome: Result<T, E>)
    ensures
        outcome == match closing {
            Err(e) => Err::<T, E>(e),
            Ok(()) => work,
        },
{
    match closing {
        Err(e) => Err(e),
        Ok(()) => work,
    }
}

/// The friendship rows of one human: a row from `human` to each of
/// `friends`, in their order.
pub fn friend_rows<Id: Copy>(human: Id, friends: &Vec<Id>) -> (rows: Vec<(Id, Id)>)
    ensures
        rows@.len() == friends@.len(),
        forall|i: int| 0 <= i < rows@.len() ==> #[trigger] rows@[i] == (human, friends@[i]),
{
    let mut rows: Vec<(Id, Id)> = Vec::new();
    let mut i: usize = 0;
    while i < friends.len()
        invariant
            i <= friends@.len(),
            rows@.len() == i,
            forall|k: int| 0 <= k < i ==> #[trigger] rows@[k] == (human, friends@[k]),
        decreases friends@.len() - i,
    {
        rows.push((human, friends[i]));
        i += 1;
    }
    rows
}

/// A connection pool for tests: whatever is done through it is rolled back.
#[derive(Clone)]
pub struct TestPool<Pool>(Pool);

impl<Pool> TestPool<Pool> {
    /// The wrapped pool, as contracts see it.
    pub closed spec fn spec_inner(&self) -> Pool {
        self.0
    }

    /// A test pool over `pool`.
    pub fn with(pool: Pool) -> (wrapped: Self)
        ensures
            wrapped.spec_inner() == pool,
    {
        TestPool(pool)
    }

    /// The wrapped pool.
    pub fn inner(&self) -> (pool: &Pool)
        ensures
            *pool == self.spec_inner(),
    {
        &self.0
    }

    /// How a unit of work ends on this pool: rolled back, whatever came of
    /// it.
    pub fn completion(&self, work_succeeded: bool) -> (end: Completion)
        ensures
            end == Completion::Rollback,
    {
        Completion::Rollback
    }
}

} // verus!
