//! The abstract output of the generators: named operations with parameter
//! and return descriptors and an abstract body, ready for a back end to
//! render into host-language code.

use vstd::prelude::*;

use crate::directive::DirectiveError;
use crate::schema::TypeDesc;
use crate::schema::Visibility;
use crate::validate::StructuralError;

verus! {

/// Which accessor an operation is; the back end derives the rendered name
/// from the kind and the field name (`f`, `f_mut`, `set_f`, `with_f`).
#[derive(Clone, Copy, Debug, PartialEq, Eq)]
pub enum OpKind {
    /// Read access, named like the field.
    Get,
    /// Mutable access, named `<field>_mut`.
    GetMut,
    /// Assignment for chaining, named `set_<field>`.
    Assign,
    /// Fluent assignment by value, named `with_<field>`.
    With,
}

/// The return type of a generated operation, relative to its owning type.
#[derive(Debug, PartialEq, Eq)]
pub enum RetDesc {
    /// An immutable reference to the given type.
    RefTo(TypeDesc),
    /// An optional immutable reference to the given type, read through one
    /// presence layer.
    OptionRefTo(TypeDesc),
    /// A mutable reference to the given type.
    MutRefTo(TypeDesc),
    /// A mutable reference to the presence-wrapped slot holding the given
    /// type.
    MutRefPresence(TypeDesc),
    /// The owning type, by value.
    SelfValue,
    /// A mutable reference to the owning type.
    SelfMutRef,
}

/// The abstract body of a generated operation.
#[derive(Debug, PartialEq, Eq)]
pub enum OpBody {
    /// Yield a reference to the named field.
    ReadField(String),
    /// Yield a reference into the named field's presence layer.
    ReadFieldPresence(String),
    /// Yield a mutable reference to the named field.
    BorrowFieldMut(String),
    /// Assign the parameter to the named field, then yield the owner.
    StoreField(String),
    /// Wrap the parameter in the presence layer, assign it to the named
    /// field, then yield the owner.
    StoreFieldPresence(String),
}

/// The flavour of documentation text attached to an operation; the back end
/// renders it against the operation's field name.
#[derive(Clone, Copy, Debug, PartialEq, Eq)]
pub enum DocKind {
    /// "Return the field."
    ReadsField,
    /// "Return the field as a mutable reference."
    ReadsFieldMut,
    /// "Define the field."
    WritesField,
}

/// One generated operation on the owning type.
#[derive(Debug, PartialEq, Eq)]
pub struct AccessorOp {
    pub kind: OpKind,
    pub field: String,
    /// The type of the single value parameter, for `Set` and `With`.
    pub param_ty: Option<TypeDesc>,
    pub ret: RetDesc,
    pub body: OpBody,
    pub doc: Option<DocKind>,
}

/// The read accessors planned for a record.
#[derive(Debug, PartialEq, Eq)]
pub struct GetterPlan {
    pub owner: String,
    pub ops: Vec<AccessorOp>,
}

/// The mutators planned for a record.
#[derive(Debug, PartialEq, Eq)]
pub struct SetterPlan {
    pub owner: String,
    pub ops: Vec<AccessorOp>,
}

/// The combined accessors and mutators planned for a record, each operation
/// carrying documentation text.
#[derive(Debug, PartialEq, Eq)]
pub struct FieldPlan {
    pub owner: String,
    pub ops: Vec<AccessorOp>,
}

/// The directive name a trace entry reports.
#[derive(Clone, Copy, Debug, PartialEq, Eq)]
pub enum DirectiveName {
    SkipName,
    DefaultName,
}

/// One observable record of a directive value actually applied during
/// generation, buffered per invocation for the caller's logging sink.
#[derive(Debug, PartialEq, Eq)]
pub struct TraceEntry {
    pub field: String,
    pub directive: DirectiveName,
    pub value: String,
}

/// One field of the builder's companion type.  The slot's declared type is
/// always one presence layer over `base`; its zero value is the absent slot.
#[derive(Debug, PartialEq, Eq)]
pub struct SlotSpec {
    pub name: String,
    pub vis: Visibility,
    pub base: TypeDesc,
}

/// How `build()` resolves one record field from its slot: a present value is
/// taken (re-wrapped in the presence layer when the declared type is a
/// wrapper); an absent slot falls back to the default expression when one
/// was given, and to the declared type's zero value otherwise.
#[derive(Debug, PartialEq, Eq)]
pub struct BuildField {
    pub name: String,
    /// The field's declared type.
    pub ty: TypeDesc,
    /// Whether the declared type is itself a presence wrapper.
    pub wrapped: bool,
    /// The verbatim fallback expression of a `default` directive, if any.
    pub default_expr: Option<String>,
}

/// Everything planned for a record's companion builder: the companion's
/// field list, the four accessors per field, the `build()` resolution per
/// field, and the trace of directive values applied.
#[derive(Debug, PartialEq, Eq)]
pub struct BuilderPlan {
    pub owner: String,
    pub slots: Vec<SlotSpec>,
    pub ops: Vec<AccessorOp>,
    pub build: Vec<BuildField>,
    pub trace: Vec<TraceEntry>,
}

/// One parameter of the planned constructor.
#[derive(Debug, PartialEq, Eq)]
pub struct CtorParam {
    pub name: String,
    pub ty: TypeDesc,
}

/// How the constructor initializes one field: from the parameter at the
/// given position, or from the verbatim substitute expression of its skip
/// directive.
#[derive(Debug, PartialEq, Eq)]
pub enum CtorInit {
    FromParam(usize),
    FromExpr(String),
}

/// One field initializer of the planned constructor.
#[derive(Debug, PartialEq, Eq)]
pub struct CtorField {
    pub name: String,
    pub init: CtorInit,
}

/// The constructor planned for a record: its parameters in declaration
/// order (skipped fields excluded), one initializer per field, and the trace
/// of directive values applied.
#[derive(Debug, PartialEq, Eq)]
pub struct CtorPlan {
    pub owner: String,
    pub params: Vec<CtorParam>,
    pub inits: Vec<CtorField>,
    pub trace: Vec<TraceEntry>,
}

/// Why a generator produced no plan: the record's shape was rejected, or a
/// field's directive was misused.
#[derive(Debug, PartialEq, Eq)]
pub enum GenError {
    Shape(StructuralError),
    Directive(DirectiveError),
}

} // verus!
