//! Symbolic field values, used to state what the planned builder and
//! constructor do when they run.
//!
//! Generated code only ever fills a field from three sources: a value the
//! caller supplied, the verbatim expression of a directive, or the declared
//! type's zero value; a wrapper field additionally gets one presence layer
//! applied.  These symbolic values record exactly that, so the resolution
//! logic can be stated and checked without evaluating host-language
//! expressions.

use vstd::prelude::*;

use crate::schema::TypeDesc;
use crate::schema::clone_type;

verus! {

/// A symbolic value for one record field.
#[derive(Debug, PartialEq, Eq)]
pub enum FieldValue {
    /// The intrinsic zero value of the given type.
    ZeroOf(TypeDesc),
    /// The value of a verbatim source expression.
    ExprOf(String),
    /// A value with one presence layer applied.
    Wrapped(Box<FieldValue>),
}

/// An exact copy of a symbolic value.
pub fn clone_value(v: &FieldValue) -> (r: FieldValue)
    ensures
        r == *v,
    decreases *v,
{
    match v {
        FieldValue::ZeroOf(t) => FieldValue::ZeroOf(clone_type(t)),
        FieldValue::ExprOf(e) => FieldValue::ExprOf(e.clone()),
        FieldValue::Wrapped(b) => FieldValue::Wrapped(Box::new(clone_value(&**b))),
    }
}

} // verus!
