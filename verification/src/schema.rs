//! The normalized, in-memory description of a record: its fields, their
//! declared types and the raw per-field attribute items.  Pure data with a
//! few invariants; the generators consume it read-only.

use vstd::prelude::*;

verus! {

/// A position in the source text of the record declaration.  The engine never
/// interprets it; it is carried into diagnostics so the front end can point
/// at the offending token.
#[derive(Clone, Copy, Debug, PartialEq, Eq)]
pub struct SrcLoc {
    pub line: u32,
    pub col: u32,
}

/// Visibility of a declared field, propagated verbatim into the builder's
/// companion field declarations.
#[derive(Clone, Copy, Debug, PartialEq, Eq)]
pub enum Visibility {
    Public,
    Private,
}

/// A declared type, reduced to what the engine reads: the source text of the
/// outermost type name and the first type argument, if one is present.
///
/// The optional-type classifier decides from this whether the type is a
/// single-argument wrapper (see [`crate::classify`]); everything else about
/// the type is the front end's business.
#[derive(Debug, PartialEq, Eq)]
pub struct TypeDesc {
    pub name: String,
    pub arg: Option<Box<TypeDesc>>,
}

/// The three syntactic forms an attribute item can take: a bare marker
/// (`skip`), a name-value pair (`skip = expr`, the right-hand side kept
/// verbatim as unevaluated source text), and a list form (`skip(...)`).
#[derive(Debug, PartialEq, Eq)]
pub enum MetaForm {
    Marker,
    WithValue(String),
    ListForm,
}

/// One tokenized attribute item attached to a field: the attribute namespace
/// it appeared under (`builder`, `getters`, ...), the directive name, its
/// syntactic form and where it stands in the source.
///
/// The front end tokenizes attributes into this shape but does not interpret
/// them; interpretation is the directive parser's job.
#[derive(Debug, PartialEq, Eq)]
pub struct AttrItem {
    pub namespace: String,
    pub name: String,
    pub form: MetaForm,
    pub loc: SrcLoc,
}

/// One declared field of a record: its name, visibility, declared type and
/// the attribute items attached to it, in source order.
#[derive(Debug, PartialEq, Eq)]
pub struct FieldSpec {
    pub name: String,
    pub vis: Visibility,
    pub ty: TypeDesc,
    pub attrs: Vec<AttrItem>,
}

/// The shape of the record under its name: only a struct with named fields
/// carries fields the generators can work on; the other shapes exist so the
/// structural validator can reject them with a precise diagnostic.
#[derive(Debug, PartialEq, Eq)]
pub enum RecordBody {
    NamedFields(Vec<FieldSpec>),
    TupleStruct,
    UnitStruct,
    EnumInput,
    UnionInput,
}

/// The structural description of one record, constructed once per input and
/// consumed read-only by all generators.  `loc` points at the keyword that
/// introduced the record (`struct`, `enum`, `union`).
#[derive(Debug, PartialEq, Eq)]
pub struct RecordSpec {
    pub name: String,
    pub loc: SrcLoc,
    pub body: RecordBody,
}

/// A record has a workable shape exactly when it is a struct with named
/// fields.
pub open spec fn shape_ok(r: RecordSpec) -> bool {
    r.body is NamedFields
}

/// The declared fields, in declaration order (empty for shapes the validator
/// rejects).
pub open spec fn fields_of(r: RecordSpec) -> Seq<FieldSpec> {
    match r.body {
        RecordBody::NamedFields(fs) => fs@,
        _ => Seq::empty(),
    }
}

/// The field names in a field list are pairwise distinct.
pub open spec fn names_distinct(fs: Seq<FieldSpec>) -> bool {
    forall|i: int, j: int| 0 <= i < j < fs.len() ==> #[trigger] fs[i].name@ != #[trigger] fs[j].name@
}

/// Field names are identifiers, unique within their owning record.
pub open spec fn record_wf(r: RecordSpec) -> bool {
    names_distinct(fields_of(r))
}

/// An exact copy of a type descriptor.
pub fn clone_type(t: &TypeDesc) -> (r: TypeDesc)
    ensures
        r == *t,
    decreases *t,
{
    let arg = match &t.arg {
        Option::Some(b) => Option::Some(Box::new(clone_type(&**b))),
        Option::None => Option::None,
    };
    TypeDesc { name: t.name.clone(), arg }
}

} // verus!
