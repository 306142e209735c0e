//! The one error type shared by every fallible operation of the mapping layer.

use vstd::prelude::*;
use vstd::string::StringExecFns;

verus! {

/// Everything that can go wrong while mapping rows to records.
///
/// Every fallible operation of this crate returns this type, so callers can
/// pattern-match uniformly:
///
/// * `ColumnNotFound`: a by-name lookup referenced a column absent from the
///   registry; carries the requested column name.
/// * `InvalidType`: a value's variant did not match the scalar kind required
///   for a non-optional extraction; reserved for hand-written mappings that
///   want to distinguish it from `ConversionError`.
/// * `NullValue`: reserved for extraction paths that explicitly reject `Null`
///   for a non-optional field; plan-driven mapping reports such a value as a
///   `ConversionError` instead.
/// * `ConversionError`: the diagnostic produced by plan-driven by-index
///   mapping when a non-optional field's value has the wrong variant; carries
///   the field name and the expected kind.
/// * `IoError`: an I/O failure surfaced by the caller's row source, carried
///   as its message; opaque to this layer.
/// * `TursoError`: any other failure surfaced by the underlying database
///   client, carried as its message; also used for a row access whose column
///   index is out of range.
#[derive(Debug, Clone, PartialEq, Eq)]
pub enum TursoMapperError {
    ColumnNotFound(String),
    InvalidType(String),
    NullValue(String),
    ConversionError(String),
    IoError(String),
    TursoError(String),
}

pub type TursoMapperResult<T> = Result<T, TursoMapperError>;

impl TursoMapperError {
    /// The human-readable rendering of the error: a fixed label for the
    /// variant followed by the carried message.
    pub open spec fn spec_message(&self) -> Seq<char> {
        match self {
            TursoMapperError::ColumnNotFound(m) => "Column not found: "@ + m@,
            TursoMapperError::InvalidType(m) => "Invalid type: "@ + m@,
            TursoMapperError::NullValue(m) => "Null value: "@ + m@,
            TursoMapperError::ConversionError(m) => "Conversion error: "@ + m@,
            TursoMapperError::IoError(m) => "IO error: "@ + m@,
            TursoMapperError::TursoError(m) => "Turso error: "@ + m@,
        }
    }

    /// Renders the error as one line of text.
    pub fn message(&self) -> (r: String)
        ensures
            r@ == self.spec_message(),
    {
        match self {
            TursoMapperError::ColumnNotFound(m) => "Column not found: ".to_owned().concat(m.as_str()),
            TursoMapperError::InvalidType(m) => "Invalid type: ".to_owned().concat(m.as_str()),
            TursoMapperError::NullValue(m) => "Null value: ".to_owned().concat(m.as_str()),
            TursoMapperError::ConversionError(m) => "Conversion error: ".to_owned().concat(m.as_str()),
            TursoMapperError::IoError(m) => "IO error: ".to_owned().concat(m.as_str()),
            TursoMapperError::TursoError(m) => "Turso error: ".to_owned().concat(m.as_str()),
        }
    }
}

} // verus!
