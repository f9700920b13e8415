use vstd::prelude::*;

verus! {

/**
Representation of the conflict clause of an INSERT statement.

The default behaviour is [OnConflict::ABORT]: a failing insert only stops
the statement itself. [OnConflict::ROLLBACK] additionally rolls back the
surrounding transaction and is only meaningful inside one.
 */
#[derive(Copy, Clone, Debug, PartialEq, Eq, Structural)]
pub enum OnConflict {
    /// Abort the failing statement, keep the transaction.
    ABORT,
    /// Roll the whole transaction back on failure.
    ROLLBACK,
}

impl Default for OnConflict {
    /// The default conflict policy is ABORT.
    fn default() -> (r: Self)
        ensures
            r == OnConflict::ABORT,
    {
        OnConflict::ABORT
    }
}

} // verus!
