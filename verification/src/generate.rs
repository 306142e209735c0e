//! The build-time planner: given a record type's declared fields, select the
//! by-index extraction strategy for each one, refusing the whole record when
//! any field's declared type is unsupported.

use vstd::prelude::*;
use vstd::string::StringExecFns;
use crate::mapping::FieldDescriptor;
use crate::mapping::MappingPlan;
use crate::mapping::ScalarKind;

verus! {

/// The shape of a declared field type, as far as the planner reads it: for a
/// path type, the leading identifier of its first segment together with that
/// segment's generic type arguments; any other shape of type (a reference, a
/// tuple, a slice, a path without segments) is `Other`.
#[derive(Debug)]
pub enum TypeExpr {
    Path { head: String, args: Vec<TypeExpr> },
    Other,
}

/// One declared field handed to the planner: the field's name and its
/// declared type, in declaration order.
#[derive(Debug)]
pub struct FieldDef {
    pub name: String,
    pub ty: TypeExpr,
}

/// The rendering of a declared type that the planner dispatches on: the
/// leading identifier, followed by the leading identifier of the first
/// generic type argument in angle brackets when there is one (`Vec<u8>`),
/// and `unknown` for a type that is not a path.
pub open spec fn spec_type_path(t: TypeExpr) -> Seq<char> {
    match t {
        TypeExpr::Path { head, args } => {
            if args@.len() > 0 && args@[0] is Path {
                head@ + "<"@ + args@[0]->Path_head@ + ">"@
            } else {
                head@
            }
        },
        TypeExpr::Other => "unknown"@,
    }
}

/// The rendering of the wrapped type when the declared type is an optional
/// wrapper: for `Option` of some type argument, that argument's
/// [`spec_type_path`]; nothing otherwise.
pub open spec fn spec_option_inner(t: TypeExpr) -> Option<Seq<char>> {
    match t {
        TypeExpr::Path { head, args } => {
            if head@ == "Option"@ && args@.len() > 0 {
                Some(spec_type_path(args@[0]))
            } else {
                None
            }
        },
        TypeExpr::Other => None,
    }
}

/// The closed dispatch table from a rendered type path to a scalar kind;
/// every path outside the table is unsupported.
pub open spec fn spec_scalar_kind(path: Seq<char>) -> Option<ScalarKind> {
    if path == "i64"@ {
        Some(ScalarKind::Integer64)
    } else if path == "String"@ {
        Some(ScalarKind::Text)
    } else if path == "f64"@ {
        Some(ScalarKind::Real64)
    } else if path == "Vec<u8>"@ {
        Some(ScalarKind::Blob)
    } else {
        None
    }
}

/// Renders a declared type as the path the dispatch table is keyed by.
pub fn get_type_path(t: &TypeExpr) -> (r: String)
    ensures
        r@ == spec_type_path(*t),
{
    match t {
        TypeExpr::Path { head, args } => {
            if args.len() > 0 {
                match &args[0] {
                    TypeExpr::Path { head: inner_head, args: _ } => {
                        let mut r = head.clone();
                        r.append("<");
                        r.append(inner_head.as_str());
                        r.append(">");
                        r
                    },
                    TypeExpr::Other => head.clone(),
                }
            } else {
                head.clone()
            }
        },
        TypeExpr::Other => "unknown".to_owned(),
    }
}

/// Extracts the wrapped type's rendered path when the declared type is an
/// `Option` wrapper.
pub fn get_option_inner_type(t: &TypeExpr) -> (r: Option<String>)
    ensures
        match r {
            Some(inner) => spec_option_inner(*t) == Some(inner@),
            None => spec_option_inner(*t) is None,
        },
{
    match t {
        TypeExpr::Path { head, args } => {
            if *head == "Option".to_owned() && args.len() > 0 {
                Some(get_type_path(&args[0]))
            } else {
                None
            }
        },
        TypeExpr::Other => None,
    }
}

/// Looks a rendered type path up in the closed dispatch table.
pub fn scalar_kind_of(path: &String) -> (r: Option<ScalarKind>)
    ensures
        r == spec_scalar_kind(path@),
{
    if *path == "i64".to_owned() {
        Some(ScalarKind::Integer64)
    } else if *path == "String".to_owned() {
        Some(ScalarKind::Text)
    } else if *path == "f64".to_owned() {
        Some(ScalarKind::Real64)
    } else if *path == "Vec<u8>".to_owned() {
        Some(ScalarKind::Blob)
    } else {
        None
    }
}

/// One field the planner refused: the field's name, the rendered type path
/// it could not dispatch on, and whether that path stood under an `Option`
/// wrapper.
#[derive(Debug, Clone, PartialEq)]
pub struct UnsupportedField {
    pub field: String,
    pub type_path: String,
    pub optional: bool,
}

impl UnsupportedField {
    /// The diagnostic text for this refused field.
    pub open spec fn spec_message(&self) -> Seq<char> {
        if self.optional {
            "Unsupported Option type: Option<"@ + self.type_path@ + ">"@
        } else {
            "Unsupported type: "@ + self.type_path@
        }
    }

    /// Renders the diagnostic for this refused field.
    pub fn message(&self) -> (r: String)
        ensures
            r@ == self.spec_message(),
    {
        if self.optional {
            "Unsupported Option type: Option<".to_owned().concat(self.type_path.as_str()).concat(
                ">",
            )
        } else {
            "Unsupported type: ".to_owned().concat(self.type_path.as_str())
        }
    }
}

/// What the planner decides for one declared field: its descriptor, or
/// nothing when the declared type is unsupported. An optional wrapper is
/// unwrapped first and the wrapped path dispatched; otherwise the declared
/// type's own path is.
pub open spec fn spec_field_plan(f: FieldDef) -> Option<FieldDescriptor> {
    match spec_option_inner(f.ty) {
        Some(inner) => match spec_scalar_kind(inner) {
            Some(kind) => Some(FieldDescriptor { name: f.name, kind: kind, optional: true }),
            None => None,
        },
        None => match spec_scalar_kind(spec_type_path(f.ty)) {
            Some(kind) => Some(FieldDescriptor { name: f.name, kind: kind, optional: false }),
            None => None,
        },
    }
}

/// Whether one diagnostic is the one the planner owes for a refused field.
pub open spec fn spec_issue_for(f: FieldDef, u: UnsupportedField) -> bool {
    &&& u.field@ == f.name@
    &&& match spec_option_inner(f.ty) {
        Some(inner) => u.optional && u.type_path@ == inner,
        None => !u.optional && u.type_path@ == spec_type_path(f.ty),
    }
}

/// The subsequence of declared fields the planner refuses, in declaration
/// order.
pub open spec fn spec_unsupported_fields(fields: Seq<FieldDef>) -> Seq<FieldDef>
    decreases fields.len(),
{
    if fields.len() == 0 {
        Seq::empty()
    } else if spec_field_plan(fields.last()) is Some {
        spec_unsupported_fields(fields.drop_last())
    } else {
        spec_unsupported_fields(fields.drop_last()).push(fields.last())
    }
}

/// Derives the by-index extraction plan for a record type from its declared
/// fields, in declaration order.
///
/// Succeeds exactly when every field's declared type dispatches to a
/// supported scalar kind, optionally wrapped; otherwise the whole record is
/// refused, with one diagnostic per offending field — every problem is
/// reported, not only the first.
pub fn build_mapping_plan(fields: &Vec<FieldDef>) -> (r: Result<MappingPlan, Vec<UnsupportedField>>)
    ensures
        match r {
            Ok(plan) => {
                &&& plan.fields@.len() == fields@.len()
                &&& forall|i: int|
                    #![trigger spec_field_plan(fields@[i])]
                    #![trigger plan.fields@[i]]
                    0 <= i < fields@.len() ==> spec_field_plan(fields@[i]) == Some(plan.fields@[i])
            },
            Err(issues) => {
                let bad = spec_unsupported_fields(fields@);
                &&& bad.len() > 0
                &&& issues@.len() == bad.len()
                &&& forall|k: int| 0 <= k < bad.len() ==> spec_issue_for(bad[k], #[trigger] issues@[k])
            },
        },
{
    let mut descriptors: Vec<FieldDescriptor> = Vec::new();
    let mut issues: Vec<UnsupportedField> = Vec::new();
    let n = fields.len();
    let mut i: usize = 0;
    while i < n
        invariant
            n == fields@.len(),
            i <= n,
            issues@.len() == spec_unsupported_fields(fields@.take(i as int)).len(),
            forall|k: int|
                0 <= k < issues@.len() ==> spec_issue_for(
                    spec_unsupported_fields(fields@.take(i as int))[k],
                    #[trigger] issues@[k],
                ),
            issues@.len() == 0 ==> {
                &&& descriptors@.len() == i
                &&& forall|j: int|
                    0 <= j < i ==> #[trigger] spec_field_plan(fields@[j]) == Some(descriptors@[j])
            },
        decreases n - i,
    {
        let f = &fields[i];
        match get_option_inner_type(&f.ty) {
            Some(inner) => match scalar_kind_of(&inner) {
                Some(kind) => descriptors.push(
                    FieldDescriptor { name: f.name.clone(), kind: kind, optional: true },
                ),
                None => issues.push(
                    UnsupportedField { field: f.name.clone(), type_path: inner, optional: true },
                ),
            },
            None => {
                let path = get_type_path(&f.ty);
                match scalar_kind_of(&path) {
                    Some(kind) => descriptors.push(
                        FieldDescriptor { name: f.name.clone(), kind: kind, optional: false },
                    ),
                    None => issues.push(
                        UnsupportedField {
                            field: f.name.clone(),
                            type_path: path,
                            optional: false,
                        },
                    ),
                }
            },
        }
        proof {
            let next = i + 1 as int;
            assert(fields@.take(next).drop_last() =~= fields@.take(i as int));
            assert(fields@.take(next).last() == fields@[i as int]);
        }
        i = i + 1;
    }
    proof {
        assert(fields@.take(n as int) =~= fields@);
    }
    if issues.len() == 0 {
        Ok(MappingPlan { fields: descriptors })
    } else {
        Err(issues)
    }
}

} // verus!
