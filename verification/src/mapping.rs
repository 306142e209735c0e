//! Per-row extraction driven by a mapping plan, and the contracts a record
//! type implements to be constructed from a row.

use vstd::prelude::*;
use vstd::string::StringExecFns;
use crate::error::TursoMapperError;
use crate::registry::ColumnIndices;
use crate::value::Row;
use crate::value::Value;

verus! {

/// The closed set of scalar kinds a record field can declare.
#[derive(Debug, Clone, Copy, PartialEq, Eq, Structural)]
pub enum ScalarKind {
    Integer64,
    Text,
    Real64,
    Blob,
}

/// One field of a record type, as the planner derived it: the field's name,
/// its scalar kind, and whether the declared type wraps the kind in an
/// optional. Field descriptors are held in declaration order, and order is
/// significant: by-index mapping binds field `n` to column `n`.
#[derive(Debug, Clone)]
pub struct FieldDescriptor {
    pub name: String,
    pub kind: ScalarKind,
    pub optional: bool,
}

/// The by-index extraction strategy for one record type: one descriptor per
/// field, in declaration order.
#[derive(Debug, Clone)]
pub struct MappingPlan {
    pub fields: Vec<FieldDescriptor>,
}

/// One extracted field of a constructed record, tagged with the declared
/// type it was extracted for.
#[derive(Debug, Clone, PartialEq)]
pub enum FieldValue {
    Integer64(i64),
    Text(String),
    Real64(u64),
    Blob(Vec<u8>),
    OptionalInteger64(Option<i64>),
    OptionalText(Option<String>),
    OptionalReal64(Option<u64>),
    OptionalBlob(Option<Vec<u8>>),
}

/// The mathematical value of a [`FieldValue`]: text as its characters and a
/// blob as its bytes.
pub enum FieldValueView {
    Integer64(i64),
    Text(Seq<char>),
    Real64(u64),
    Blob(Seq<u8>),
    OptionalInteger64(Option<i64>),
    OptionalText(Option<Seq<char>>),
    OptionalReal64(Option<u64>),
    OptionalBlob(Option<Seq<u8>>),
}

impl View for FieldValue {
    type V = FieldValueView;

    open spec fn view(&self) -> FieldValueView {
        match self {
            FieldValue::Integer64(x) => FieldValueView::Integer64(*x),
            FieldValue::Text(s) => FieldValueView::Text(s@),
            FieldValue::Real64(x) => FieldValueView::Real64(*x),
            FieldValue::Blob(b) => FieldValueView::Blob(b@),
            FieldValue::OptionalInteger64(o) => FieldValueView::OptionalInteger64(*o),
            FieldValue::OptionalText(o) => FieldValueView::OptionalText(
                match o {
                    Some(s) => Some(s@),
                    None => None,
                },
            ),
            FieldValue::OptionalReal64(o) => FieldValueView::OptionalReal64(*o),
            FieldValue::OptionalBlob(o) => FieldValueView::OptionalBlob(
                match o {
                    Some(b) => Some(b@),
                    None => None,
                },
            ),
        }
    }
}

/// Whether a cell's variant is the one a scalar kind extracts from.
pub open spec fn spec_value_matches(kind: ScalarKind, v: Value) -> bool {
    match kind {
        ScalarKind::Integer64 => v is Integer,
        ScalarKind::Text => v is Text,
        ScalarKind::Real64 => v is Real,
        ScalarKind::Blob => v is Blob,
    }
}

/// Non-optional coercion: the extracted field value when the cell's variant
/// matches the kind, and nothing otherwise.
pub open spec fn spec_coerce_required(kind: ScalarKind, v: Value) -> Option<FieldValueView> {
    match kind {
        ScalarKind::Integer64 => match v {
            Value::Integer(x) => Some(FieldValueView::Integer64(x)),
            _ => None,
        },
        ScalarKind::Text => match v {
            Value::Text(s) => Some(FieldValueView::Text(s@)),
            _ => None,
        },
        ScalarKind::Real64 => match v {
            Value::Real(x) => Some(FieldValueView::Real64(x)),
            _ => None,
        },
        ScalarKind::Blob => match v {
            Value::Blob(b) => Some(FieldValueView::Blob(b@)),
            _ => None,
        },
    }
}

/// Optional coercion over the outcome of fetching the cell: a missing cell,
/// a `Null` cell and a cell of the wrong variant all resolve to the absent
/// state, and only a matching cell to the present state.
pub open spec fn spec_coerce_optional(kind: ScalarKind, fetched: Option<Value>) -> FieldValueView {
    match kind {
        ScalarKind::Integer64 => FieldValueView::OptionalInteger64(
            match fetched {
                Some(Value::Integer(x)) => Some(x),
                _ => None,
            },
        ),
        ScalarKind::Text => FieldValueView::OptionalText(
            match fetched {
                Some(Value::Text(s)) => Some(s@),
                _ => None,
            },
        ),
        ScalarKind::Real64 => FieldValueView::OptionalReal64(
            match fetched {
                Some(Value::Real(x)) => Some(x),
                _ => None,
            },
        ),
        ScalarKind::Blob => FieldValueView::OptionalBlob(
            match fetched {
                Some(Value::Blob(b)) => Some(b@),
                _ => None,
            },
        ),
    }
}

/// The absent state of an optional field of the given kind.
pub open spec fn spec_absent(kind: ScalarKind) -> FieldValueView {
    match kind {
        ScalarKind::Integer64 => FieldValueView::OptionalInteger64(None),
        ScalarKind::Text => FieldValueView::OptionalText(None),
        ScalarKind::Real64 => FieldValueView::OptionalReal64(None),
        ScalarKind::Blob => FieldValueView::OptionalBlob(None),
    }
}

/// What extracting one field yields against the row's cells: the extracted
/// value, or nothing when the whole construction must fail at this field.
pub open spec fn spec_field_ok(d: FieldDescriptor, vals: Seq<Value>, idx: int) -> Option<FieldValueView> {
    if d.optional {
        Some(
            spec_coerce_optional(
                d.kind,
                if 0 <= idx < vals.len() {
                    Some(vals[idx])
                } else {
                    None
                },
            ),
        )
    } else if 0 <= idx < vals.len() {
        spec_coerce_required(d.kind, vals[idx])
    } else {
        None
    }
}

/// The suffix of the diagnostic a failed non-optional coercion carries.
pub open spec fn spec_kind_note(kind: ScalarKind) -> Seq<char> {
    match kind {
        ScalarKind::Integer64 => " is not an integer"@,
        ScalarKind::Text => " is not a string"@,
        ScalarKind::Real64 => " is not a real"@,
        ScalarKind::Blob => " is not a blob"@,
    }
}

/// What [`MappingPlan::try_from_row`] returns for the given field
/// descriptors and row cells: on success, one extracted value per field; on
/// failure, the error of the first field whose extraction fails, and no
/// record at all.
pub open spec fn spec_mapped_post(
    fields: Seq<FieldDescriptor>,
    vals: Seq<Value>,
    r: Result<Vec<FieldValue>, TursoMapperError>,
) -> bool {
    match r {
        Ok(rec) => {
            &&& rec@.len() == fields.len()
            &&& forall|i: int|
                #![trigger spec_field_ok(fields[i], vals, i)]
                #![trigger rec@[i]]
                0 <= i < fields.len() ==> spec_field_ok(fields[i], vals, i) == Some(rec@[i]@)
        },
        Err(e) => exists|i: int|
            {
                &&& 0 <= i < fields.len()
                &&& #[trigger] spec_field_ok(fields[i], vals, i) is None
                &&& forall|j: int| 0 <= j < i ==> #[trigger] spec_field_ok(fields[j], vals, j) is Some
                &&& if i < vals.len() {
                    e matches TursoMapperError::ConversionError(m) && m@ == fields[i].name@
                        + spec_kind_note(fields[i].kind)
                } else {
                    e matches TursoMapperError::TursoError(m) && m@ == "column index out of range"@
                }
            },
    }
}

/// The text of [`spec_kind_note`]: what a value of the kind is called in a
/// coercion diagnostic.
fn kind_note(kind: ScalarKind) -> (r: &'static str)
    ensures
        r@ == spec_kind_note(kind),
{
    match kind {
        ScalarKind::Integer64 => " is not an integer",
        ScalarKind::Text => " is not a string",
        ScalarKind::Real64 => " is not a real",
        ScalarKind::Blob => " is not a blob",
    }
}

/// Runs the non-optional coercion of one cell to one scalar kind.
fn coerce_required(kind: ScalarKind, v: &Value) -> (r: Option<FieldValue>)
    ensures
        match r {
            Some(fv) => spec_coerce_required(kind, *v) == Some(fv@),
            None => spec_coerce_required(kind, *v) is None,
        },
{
    match kind {
        ScalarKind::Integer64 => match v.as_integer() {
            Some(x) => Some(FieldValue::Integer64(x)),
            None => None,
        },
        ScalarKind::Text => match v.as_text() {
            Some(s) => Some(FieldValue::Text(s)),
            None => None,
        },
        ScalarKind::Real64 => match v.as_real() {
            Some(x) => Some(FieldValue::Real64(x)),
            None => None,
        },
        ScalarKind::Blob => match v.as_blob() {
            Some(b) => Some(FieldValue::Blob(b)),
            None => None,
        },
    }
}

/// Runs the optional coercion for one column position, absorbing a missing
/// cell and every failed coercion into the absent state.
fn coerce_optional(kind: ScalarKind, row: &Row, index: usize) -> (r: FieldValue)
    ensures
        r@ == spec_coerce_optional(
            kind,
            if index < row@.len() {
                Some(row@[index as int])
            } else {
                None
            },
        ),
{
    match row.get_value(index) {
        Err(_) => match kind {
            ScalarKind::Integer64 => FieldValue::OptionalInteger64(None),
            ScalarKind::Text => FieldValue::OptionalText(None),
            ScalarKind::Real64 => FieldValue::OptionalReal64(None),
            ScalarKind::Blob => FieldValue::OptionalBlob(None),
        },
        Ok(v) => match kind {
            ScalarKind::Integer64 => FieldValue::OptionalInteger64(v.as_integer()),
            ScalarKind::Text => FieldValue::OptionalText(v.as_text()),
            ScalarKind::Real64 => FieldValue::OptionalReal64(v.as_real()),
            ScalarKind::Blob => FieldValue::OptionalBlob(v.as_blob()),
        },
    }
}

impl MappingPlan {
    /// Constructs a record from a row by position: field `n` is extracted
    /// from column `n`, in declared-field order, and the record is returned
    /// whole or not at all.
    ///
    /// A non-optional field whose cell has the wrong variant fails the whole
    /// construction with a `ConversionError` naming the field and the
    /// expected kind; an index past the row's end fails it with the row
    /// accessor's own out-of-range error. An optional field absorbs every
    /// such failure into the absent state instead.
    ///
    /// Column names are never consulted, so the caller must line the
    /// declared fields up with the query's column order: against a permuted
    /// row this either fails at the first kind mismatch or, where the kinds
    /// coincide, silently fills fields from the wrong columns.
    pub fn try_from_row(&self, row: &Row) -> (r: Result<Vec<FieldValue>, TursoMapperError>)
        ensures
            spec_mapped_post(self.fields@, row@, r),
    {
        let mut rec: Vec<FieldValue> = Vec::new();
        let n = self.fields.len();
        let mut i: usize = 0;
        while i < n
            invariant
                n == self.fields@.len(),
                i <= n,
                rec@.len() == i,
                forall|j: int| 0 <= j < i ==> #[trigger] spec_field_ok(self.fields@[j], row@, j) == Some(rec@[j]@),
            decreases n - i,
        {
            let d = &self.fields[i];
            if d.optional {
                let fv = coerce_optional(d.kind, row, i);
                rec.push(fv);
            } else {
                match row.get_value(i) {
                    Err(e) => {
                        proof {
                            let fi = i as int;
                            assert(spec_field_ok(self.fields@[fi], row@, fi) is None);
                            assert(forall|j: int|
                                0 <= j < fi ==> #[trigger] spec_field_ok(self.fields@[j], row@, j)
                                    is Some);
                        }
                        return Err(e);
                    },
                    Ok(v) => match coerce_required(d.kind, v) {
                        Some(fv) => rec.push(fv),
                        None => {
                            let message = d.name.clone().concat(kind_note(d.kind));
                            proof {
                                let fi = i as int;
                                assert(spec_field_ok(self.fields@[fi], row@, fi) is None);
                                assert(forall|j: int|
                                    0 <= j < fi ==> #[trigger] spec_field_ok(
                                        self.fields@[j],
                                        row@,
                                        j,
                                    ) is Some);
                            }
                            return Err(TursoMapperError::ConversionError(message));
                        },
                    },
                }
            }
            i = i + 1;
        }
        Ok(rec)
    }
}

/// The extracted value of a non-optional field whose cell matches the kind:
/// the stored value, carried over unchanged.
pub open spec fn spec_wrapped(kind: ScalarKind, v: Value) -> FieldValueView
    recommends
        spec_value_matches(kind, v),
{
    match kind {
        ScalarKind::Integer64 => FieldValueView::Integer64(v->Integer_0),
        ScalarKind::Text => FieldValueView::Text(v->Text_0@),
        ScalarKind::Real64 => FieldValueView::Real64(v->Real_0),
        ScalarKind::Blob => FieldValueView::Blob(v->Blob_0@),
    }
}

/// The present state of an optional field whose cell matches the wrapped
/// kind: the stored value, carried over unchanged.
pub open spec fn spec_present(kind: ScalarKind, v: Value) -> FieldValueView
    recommends
        spec_value_matches(kind, v),
{
    match kind {
        ScalarKind::Integer64 => FieldValueView::OptionalInteger64(Some(v->Integer_0)),
        ScalarKind::Text => FieldValueView::OptionalText(Some(v->Text_0@)),
        ScalarKind::Real64 => FieldValueView::OptionalReal64(Some(v->Real_0)),
        ScalarKind::Blob => FieldValueView::OptionalBlob(Some(v->Blob_0@)),
    }
}

/// For every supported non-optional scalar kind, coercing a cell succeeds
/// exactly when the cell's variant matches the kind, and then yields the
/// stored value unchanged; any other variant, `Null` included, fails — never
/// a panic, never a default value.
pub proof fn lemma_required_coercion_exact(kind: ScalarKind, v: Value)
    ensures
        spec_coerce_required(kind, v) is Some <==> spec_value_matches(kind, v),
        spec_value_matches(kind, v) ==> spec_coerce_required(kind, v) == Some(spec_wrapped(kind, v)),
{
}

/// For every optional-wrapped scalar kind: a `Null` cell always resolves to
/// the absent state, and so do a missing cell and a present cell whose
/// variant does not match the wrapped kind — never an error; only a matching
/// cell resolves to the present state, carrying the stored value.
pub proof fn lemma_optional_coercion_absorbs(kind: ScalarKind, fetched: Option<Value>)
    ensures
        fetched matches Some(v) && v is Null ==> spec_coerce_optional(kind, fetched)
            == spec_absent(kind),
        fetched matches Some(v) && !spec_value_matches(kind, v) ==> spec_coerce_optional(
            kind,
            fetched,
        ) == spec_absent(kind),
        fetched is None ==> spec_coerce_optional(kind, fetched) == spec_absent(kind),
        fetched matches Some(v) ==> (spec_value_matches(kind, v) ==> spec_coerce_optional(
            kind,
            fetched,
        ) == spec_present(kind, v)),
{
}

/// By-index mapping is sensitive to column order: when a non-optional field
/// faces a cell of the wrong variant — as after permuting a row's columns
/// against the declared field order, where the kinds differ — the whole
/// construction fails. Where the kinds coincide instead, the permuted cells
/// are silently assigned to the wrong fields: see
/// [`MappingPlan::try_from_row`].
pub proof fn lemma_misaligned_kind_is_caught(
    fields: Seq<FieldDescriptor>,
    vals: Seq<Value>,
    i: int,
    r: Result<Vec<FieldValue>, TursoMapperError>,
)
    requires
        spec_mapped_post(fields, vals, r),
        0 <= i < fields.len(),
        !fields[i].optional,
        i < vals.len(),
        !spec_value_matches(fields[i].kind, vals[i]),
    ensures
        r is Err,
{
    match r {
        Ok(rec) => {
            assert(spec_field_ok(fields[i], vals, i) == Some(rec@[i]@));
            assert(spec_coerce_required(fields[i].kind, vals[i]) is None);
        },
        Err(_) => {},
    }
}

/// The by-index record construction contract: a record type that knows how
/// to build itself from a row, pulling field values strictly by the position
/// implied by declared-field order.
pub trait TryFromRowByIndex: Sized {
    fn try_from_row(row: &Row) -> Result<Self, TursoMapperError>;
}

/// The by-name record construction contract: a record type that builds
/// itself from a row by first resolving each field's column position through
/// a registry, tolerant of column reordering but intolerant of renaming.
pub trait TryFromRowByName: Sized {
    fn try_from_row(row: &Row, column_indices: &ColumnIndices) -> Result<Self, TursoMapperError>;
}

} // verus!
