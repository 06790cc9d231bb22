//! SQLite-specific extension points of the persistence layer.

use vstd::prelude::*;

verus! {

/// Trait for the implementation of a SQLite aggregate function.
///
/// An implementing type accumulates state over the rows of a query: `step`
/// is called once for every record, and `finalize` computes the aggregate's
/// result from the accumulated state, or supplies a default result when no
/// rows were processed.
pub trait SqliteAggregateFunction<Args>: Default {
    /// The result type of the SQLite aggregate function.
    type Output;

    /// Called once for every record of the query.
    fn step(&mut self, args: Args);

    /// Called after the last row has been processed, to compute the result
    /// of the aggregate function. If no rows were processed, `aggregator` is
    /// `None`, and `finalize` can be used to produce a default result.
    fn finalize(aggregator: Option<Self>) -> Self::Output;
}

} // verus!
