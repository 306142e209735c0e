//! The tagged runtime value held in one row/column cell, and the row itself.

use vstd::prelude::*;
use crate::error::TursoMapperError;

verus! {

/// One column cell of a fetched row: a closed tagged union of the scalar
/// shapes a relational column can hold.
///
/// A `Real` column is carried as the bit pattern of its 64-bit binary
/// floating-point value: this layer only moves such a value from the row into
/// the record, it never computes on it, and the caller recovers the number
/// from the bits.
#[derive(Debug, Clone, PartialEq)]
pub enum Value {
    Null,
    Integer(i64),
    Real(u64),
    Text(String),
    Blob(Vec<u8>),
}

impl Value {
    /// The integer held by an `Integer` cell, if that is what this is.
    pub open spec fn spec_as_integer(self) -> Option<i64> {
        match self {
            Value::Integer(i) => Some(i),
            _ => None,
        }
    }

    /// The bit pattern held by a `Real` cell, if that is what this is.
    pub open spec fn spec_as_real(self) -> Option<u64> {
        match self {
            Value::Real(bits) => Some(bits),
            _ => None,
        }
    }

    /// The characters held by a `Text` cell, if that is what this is.
    pub open spec fn spec_as_text(self) -> Option<Seq<char>> {
        match self {
            Value::Text(s) => Some(s@),
            _ => None,
        }
    }

    /// The bytes held by a `Blob` cell, if that is what this is.
    pub open spec fn spec_as_blob(self) -> Option<Seq<u8>> {
        match self {
            Value::Blob(b) => Some(b@),
            _ => None,
        }
    }

    /// Coerces to an integer: succeeds exactly on an `Integer` cell and
    /// yields the stored value.
    pub fn as_integer(&self) -> (r: Option<i64>)
        ensures
            r == self.spec_as_integer(),
    {
        match self {
            Value::Integer(i) => Some(*i),
            _ => None,
        }
    }

    /// Coerces to a real: succeeds exactly on a `Real` cell and yields the
    /// stored bit pattern.
    pub fn as_real(&self) -> (r: Option<u64>)
        ensures
            r == self.spec_as_real(),
    {
        match self {
            Value::Real(bits) => Some(*bits),
            _ => None,
        }
    }

    /// Coerces to text: succeeds exactly on a `Text` cell and yields an owned
    /// copy of the stored string, never a view into the row.
    pub fn as_text(&self) -> (r: Option<String>)
        ensures
            match r {
                Some(s) => self.spec_as_text() == Some(s@),
                None => self.spec_as_text() is None,
            },
    {
        match self {
            Value::Text(s) => Some(s.clone()),
            _ => None,
        }
    }

    /// Coerces to a blob: succeeds exactly on a `Blob` cell and yields an
    /// owned copy of the stored bytes, never a view into the row.
    pub fn as_blob(&self) -> (r: Option<Vec<u8>>)
        ensures
            match r {
                Some(b) => self.spec_as_blob() == Some(b@),
                None => self.spec_as_blob() is None,
            },
    {
        match self {
            Value::Blob(b) => Some(clone_bytes(b)),
            _ => None,
        }
    }
}

/// Copies a byte vector; the copy holds exactly the bytes of the original.
fn clone_bytes(b: &Vec<u8>) -> (r: Vec<u8>)
    ensures
        r@ == b@,
{
    let r = b.clone();
    proof {
        assert(r@ =~= b@);
    }
    r
}

/// One fetched query result record: an ordered sequence of cells, addressable
/// only by zero-based column position.
#[derive(Debug, Clone, PartialEq)]
pub struct Row {
    values: Vec<Value>,
}

impl View for Row {
    type V = Seq<Value>;

    closed spec fn view(&self) -> Seq<Value> {
        self.values@
    }
}

impl Row {
    /// Wraps an ordered sequence of cells as a row.
    pub fn from_values(values: Vec<Value>) -> (r: Row)
        ensures
            r@ == values@,
    {
        Row { values }
    }

    /// How many columns the row has.
    pub fn column_count(&self) -> (n: usize)
        ensures
            n == self@.len(),
    {
        self.values.len()
    }

    /// The cell at a zero-based column position.
    ///
    /// An index past the end of the row is a failure of the underlying row
    /// source's shape, not of any one coercion, and is reported as such.
    pub fn get_value(&self, index: usize) -> (r: Result<&Value, TursoMapperError>)
        ensures
            match r {
                Ok(v) => index < self@.len() && *v == self@[index as int],
                Err(e) => {
                    &&& index >= self@.len()
                    &&& e matches TursoMapperError::TursoError(m) && m@ == "column index out of range"@
                },
            },
    {
        if index < self.values.len() {
            Ok(&self.values[index])
        } else {
            Err(TursoMapperError::TursoError("column index out of range".to_owned()))
        }
    }
}

} // verus!
