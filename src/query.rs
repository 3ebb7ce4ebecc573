//! The outcome of one query execution.

use vstd::prelude::*;

use crate::row::{
    diagnostics_of_rows, diagnostics_view, map_rows, mapped_row, Diagnostic, Row, RowResult,
};

verus! {

/// The store could not execute a query; its error is carried unchanged.
pub enum QueryError<E> {
    QueryFailed(E),
}

/// The result of a query whose rows the store returned (`Ok`) or whose
/// execution failed (`Err`): every row mapped in order, or `QueryFailed` with
/// the store's error and no rows at all.
pub fn query_result<E>(fetched: Result<Vec<Row>, E>, diagnostics: &mut Vec<Diagnostic>) -> (r:
    Result<Vec<RowResult>, QueryError<E>>)
    ensures
        fetched matches Err(e) ==> r == Err::<Vec<RowResult>, QueryError<E>>(
            QueryError::QueryFailed(e),
        ) && final(diagnostics)@ == old(diagnostics)@,
        fetched matches Ok(rows) ==> r matches Ok(results) && results@.len() == rows@.len() && (
        forall|i: int| 0 <= i < rows@.len() ==> #[trigger] results@[i]@ == mapped_row(rows@[i]@))
            && diagnostics_view(final(diagnostics)@) == diagnostics_view(old(diagnostics)@)
            + diagnostics_of_rows(rows@),
{
    match fetched {
        Ok(rows) => Ok(map_rows(&rows, diagnostics)),
        Err(e) => Err(QueryError::QueryFailed(e)),
    }
}

} // verus!
