//! A row-to-record mapping layer for a relational database client.
//!
//! A query result is an ordered sequence of typed column values; this crate
//! turns each fetched row into a strongly typed record.  The pieces are:
//!
//! * [`value`]: the tagged runtime value held in one row/column cell, and the
//!   row it belongs to, addressable by column position;
//! * [`registry`]: an immutable column-name-to-position index built once per
//!   result shape, for by-name mapping;
//! * [`generate`]: the build-time planner that inspects a record type's
//!   declared fields and selects, per field, the extraction strategy that the
//!   by-index mapping will run;
//! * [`mapping`]: the per-row extraction itself, driven by such a plan, and
//!   the contracts a record type implements to be constructed from a row;
//! * [`batch`]: the adapter that applies a per-row conversion over a whole
//!   result set, failing at the first error.
//!
//! The database connection and cursor are external collaborators: the caller
//! fetches rows and hands them over as plain values.

pub mod batch;
pub mod error;
pub mod generate;
pub mod mapping;
pub mod registry;
pub mod value;

pub use batch::map_rows;
pub use batch::map_rows_as;
pub use error::TursoMapperError;
pub use error::TursoMapperResult;
pub use generate::FieldDef;
pub use generate::TypeExpr;
pub use generate::UnsupportedField;
pub use generate::build_mapping_plan;
pub use generate::get_option_inner_type;
pub use generate::get_type_path;
pub use generate::scalar_kind_of;
pub use mapping::FieldDescriptor;
pub use mapping::FieldValue;
pub use mapping::MappingPlan;
pub use mapping::ScalarKind;
pub use mapping::TryFromRowByIndex;
pub use mapping::TryFromRowByName;
pub use registry::ColumnIndices;
pub use value::Row;
pub use value::Value;
