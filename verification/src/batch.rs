//! The batch adapter: applies a per-row conversion over a whole result set,
//! in row order, failing at the first error.

use vstd::prelude::*;
use crate::error::TursoMapperError;
use crate::mapping::TryFromRowByIndex;
use crate::value::Row;

verus! {

/// Whether the conversion function accepts the row.
pub open spec fn spec_row_accepted<T, F: Fn(&Row) -> Result<T, TursoMapperError>>(
    f: F,
    row: Row,
) -> bool {
    call_requires(f, (&row,))
}

/// Whether the record is a possible successful outcome of converting the
/// row.
pub open spec fn spec_row_converts_to<T, F: Fn(&Row) -> Result<T, TursoMapperError>>(
    f: F,
    row: Row,
    t: T,
) -> bool {
    call_ensures(f, (&row,), Ok(t))
}

/// Whether converting the row can succeed at all.
pub open spec fn spec_row_can_convert<T, F: Fn(&Row) -> Result<T, TursoMapperError>>(
    f: F,
    row: Row,
) -> bool {
    exists|t: T| call_ensures(f, (&row,), Ok(t))
}

/// Whether the error is a possible failure outcome of converting the row.
pub open spec fn spec_row_fails_with<T, F: Fn(&Row) -> Result<T, TursoMapperError>>(
    f: F,
    row: Row,
    e: TursoMapperError,
) -> bool {
    call_ensures(f, (&row,), Err::<T, TursoMapperError>(e))
}

/// What [`map_rows`] returns for a conversion function and a sequence of
/// fetched rows: on success, one converted record per row, in row order,
/// each a possible outcome of the conversion on its row; on failure, an
/// error the conversion could produce on some row whose predecessors all
/// converted, and none of the earlier records — the whole batch fails, no
/// partial output is observable.
pub open spec fn spec_map_rows_post<T, F: Fn(&Row) -> Result<T, TursoMapperError>>(
    f: F,
    rows: Seq<Row>,
    r: Result<Vec<T>, TursoMapperError>,
) -> bool {
    match r {
        Ok(ts) => {
            &&& ts@.len() == rows.len()
            &&& forall|i: int|
                0 <= i < rows.len() ==> spec_row_converts_to(f, rows[i], #[trigger] ts@[i])
        },
        Err(e) => exists|i: int|
            {
                &&& 0 <= i < rows.len()
                &&& #[trigger] spec_row_fails_with(f, rows[i], e)
                &&& forall|j: int| 0 <= j < i ==> #[trigger] spec_row_can_convert(f, rows[j])
            },
    }
}

/// Converts every fetched row of one result set, in row order.
///
/// The caller drains its row cursor and hands the rows over; the conversion
/// runs here, one row at a time. The first row whose conversion fails fails
/// the whole call, and the records converted before it are discarded —
/// callers never observe a partial batch. With no rows at all the result is
/// an empty batch, not a failure.
pub fn map_rows<T, F: Fn(&Row) -> Result<T, TursoMapperError>>(rows: &Vec<Row>, f: F) -> (r: Result<
    Vec<T>,
    TursoMapperError,
>)
    requires
        forall|i: int| 0 <= i < rows@.len() ==> #[trigger] spec_row_accepted(f, rows@[i]),
    ensures
        spec_map_rows_post(f, rows@, r),
        rows@.len() == 0 ==> r is Ok,
{
    let mut out: Vec<T> = Vec::new();
    let n = rows.len();
    let mut i: usize = 0;
    while i < n
        invariant
            n == rows@.len(),
            i <= n,
            out@.len() == i,
            forall|k: int| 0 <= k < rows@.len() ==> #[trigger] spec_row_accepted(f, rows@[k]),
            forall|j: int| 0 <= j < i ==> spec_row_converts_to(f, rows@[j], #[trigger] out@[j]),
        decreases n - i,
    {
        assert(spec_row_accepted(f, rows@[i as int]));
        match f(&rows[i]) {
            Ok(t) => out.push(t),
            Err(e) => {
                proof {
                    let fi = i as int;
                    assert(spec_row_fails_with(f, rows@[fi], e));
                    assert(forall|j: int| 0 <= j < fi ==> #[trigger] spec_row_can_convert(f, rows@[j]))
                        by {
                        assert forall|j: int| 0 <= j < fi implies #[trigger] spec_row_can_convert(
                            f,
                            rows@[j],
                        ) by {
                            assert(spec_row_converts_to(f, rows@[j], out@[j]));
                        }
                    }
                }
                return Err(e);
            },
        }
        i = i + 1;
    }
    Ok(out)
}

/// Converts every fetched row of one result set into records of a type that
/// implements the by-index construction contract, in row order, failing the
/// whole batch at the first row the type refuses.
pub fn map_rows_as<T: TryFromRowByIndex>(rows: &Vec<Row>) -> (r: Result<Vec<T>, TursoMapperError>)
    ensures
        spec_map_rows_post(T::try_from_row, rows@, r),
        rows@.len() == 0 ==> r is Ok,
{
    map_rows(rows, T::try_from_row)
}

/// Batch mapping over an empty result set returns an empty batch, never a
/// failure.
pub proof fn lemma_empty_batch_is_ok<T, F: Fn(&Row) -> Result<T, TursoMapperError>>(
    f: F,
    rows: Seq<Row>,
    r: Result<Vec<T>, TursoMapperError>,
)
    requires
        spec_map_rows_post(f, rows, r),
        rows.len() == 0,
    ensures
        r matches Ok(ts) && ts@.len() == 0,
{
}

/// When some row can only fail its conversion, the whole batch fails: no
/// prefix of converted records is handed to the caller.
pub proof fn lemma_failing_row_fails_batch<T, F: Fn(&Row) -> Result<T, TursoMapperError>>(
    f: F,
    rows: Seq<Row>,
    i: int,
    r: Result<Vec<T>, TursoMapperError>,
)
    requires
        spec_map_rows_post(f, rows, r),
        0 <= i < rows.len(),
        !spec_row_can_convert(f, rows[i]),
    ensures
        r is Err,
{
    match r {
        Ok(ts) => {
            assert(spec_row_converts_to(f, rows[i], ts@[i]));
        },
        Err(_) => {},
    }
}

} // verus!
