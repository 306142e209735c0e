//! The column-name-to-position index used for by-name mapping.

use vstd::prelude::*;
use crate::error::TursoMapperError;

verus! {

/// An immutable index from column name to zero-based column position, built
/// once from an executed statement's result schema and then shared read-only
/// across every row of that result set.
///
/// Duplicate column names resolve last-wins: the rightmost column carrying
/// the name shadows the earlier ones.
#[derive(Debug, Clone)]
pub struct ColumnIndices {
    column_names: Vec<String>,
}

impl View for ColumnIndices {
    type V = Seq<Seq<char>>;

    /// The column names, in column order.
    closed spec fn view(&self) -> Seq<Seq<char>> {
        Seq::new(self.column_names@.len(), |i: int| self.column_names@[i]@)
    }
}

/// What `ColumnIndices::get_index` returns for a name, given the column
/// names of the registry, in column order: the greatest position carrying
/// the name, or a `ColumnNotFound` naming the requested column.
pub open spec fn spec_resolved(columns: Seq<Seq<char>>, name: Seq<char>, r: Result<usize, TursoMapperError>) -> bool {
    match r {
        Ok(i) => {
            &&& i < columns.len()
            &&& columns[i as int] == name
            &&& forall|j: int| i < j < columns.len() ==> columns[j] != name
        },
        Err(e) => {
            &&& forall|j: int| 0 <= j < columns.len() ==> columns[j] != name
            &&& e matches TursoMapperError::ColumnNotFound(m) && m@ == name
        },
    }
}

impl ColumnIndices {
    /// Builds the index from a statement's column names, in column order.
    pub fn new(columns: Vec<String>) -> (r: ColumnIndices)
        ensures
            r@.len() == columns@.len(),
            forall|i: int| 0 <= i < columns@.len() ==> #[trigger] r@[i] == columns@[i]@,
    {
        ColumnIndices { column_names: columns }
    }

    /// Resolves a column name to its zero-based position.
    ///
    /// Succeeds exactly when some column carries the name, with the position
    /// of the last such column; otherwise fails with `ColumnNotFound` naming
    /// the requested column.
    pub fn get_index(&self, column_name: &str) -> (r: Result<usize, TursoMapperError>)
        ensures
            spec_resolved(self@, column_name@, r),
    {
        let wanted: String = column_name.to_owned();
        let mut i: usize = self.column_names.len();
        while i > 0
            invariant
                i <= self.column_names.len(),
                wanted@ == column_name@,
                forall|j: int| i <= j < self@.len() ==> self@[j] != column_name@,
            decreases i,
        {
            i = i - 1;
            if self.column_names[i] == wanted {
                return Ok(i);
            }
        }
        Err(TursoMapperError::ColumnNotFound(wanted))
    }
}

/// By-name resolution is insensitive to column order and sensitive only to
/// naming: when exactly one column carries the name, resolution returns that
/// column's position, wherever the schema put it.
pub proof fn lemma_unique_name_resolves_to_its_position(
    columns: Seq<Seq<char>>,
    name: Seq<char>,
    p: int,
    r: Result<usize, TursoMapperError>,
)
    requires
        spec_resolved(columns, name, r),
        0 <= p < columns.len(),
        columns[p] == name,
        forall|j: int| 0 <= j < columns.len() && j != p ==> columns[j] != name,
    ensures
        r == Ok::<usize, TursoMapperError>(p as usize),
{
    match r {
        Ok(i) => {
            assert(columns[i as int] == name);
            assert(i as int == p);
        },
        Err(_) => {
            assert(columns[p] == name);
        },
    }
}

} // verus!
