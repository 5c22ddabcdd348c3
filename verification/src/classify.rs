//! The optional-type classifier: decides whether a field's declared type is a
//! single-argument wrapper around an inner type, and if so extracts the inner
//! type descriptor.
//!
//! The classification is syntactic, not semantic: a type is a wrapper exactly
//! when the source text of its outermost name equals the literal `Option` and
//! a type argument is present.  A user-defined type merely spelled `Option`
//! in another namespace is therefore misclassified; this is a known
//! limitation of name-based matching, accepted because the engine never sees
//! resolved types.

use vstd::prelude::*;

use crate::schema::TypeDesc;
use crate::schema::clone_type;

verus! {

/// The name every wrapper type must carry, as a character sequence.
pub open spec fn wrapper_name() -> Seq<char> {
    "Option"@
}

/// A type is a wrapper exactly when its outermost name reads `Option` and it
/// carries a type argument.
pub open spec fn wrapped_spec(t: TypeDesc) -> bool {
    t.name@ == wrapper_name() && t.arg is Some
}

/// The wrapped inner type (the type itself when no argument is present).
pub open spec fn inner_spec(t: TypeDesc) -> TypeDesc
    recommends
        wrapped_spec(t),
{
    match t.arg {
        Option::Some(b) => *b,
        Option::None => t,
    }
}

/// The type a generated accessor trades in: the inner type for a wrapper,
/// the declared type itself otherwise.
pub open spec fn base_spec(t: TypeDesc) -> TypeDesc {
    if wrapped_spec(t) {
        inner_spec(t)
    } else {
        t
    }
}

/// The classified shape of a declared type: either plain, or a wrapper with
/// its outer name and inner type.
#[derive(Debug)]
pub enum TypeShape<'a> {
    Plain(&'a TypeDesc),
    Wrapped(&'a String, &'a TypeDesc),
}

/// Decides whether `t` is a single-argument wrapper type.
pub fn is_wrapped(t: &TypeDesc) -> (b: bool)
    ensures
        b == wrapped_spec(*t),
{
    let lit: String = "Option".to_owned();
    t.name == lit && t.arg.is_some()
}

/// Classifies a declared type, handing back the inner type descriptor of a
/// wrapper and the whole descriptor otherwise.
pub fn classify<'a>(t: &'a TypeDesc) -> (s: TypeShape<'a>)
    ensures
        match s {
            TypeShape::Plain(p) => !wrapped_spec(*t) && *p == *t,
            TypeShape::Wrapped(outer, inner) => wrapped_spec(*t) && *outer == t.name && *inner
                == inner_spec(*t),
        },
{
    if is_wrapped(t) {
        match &t.arg {
            Option::Some(b) => TypeShape::Wrapped(&t.name, &**b),
            Option::None => {
                assert(false);
                TypeShape::Plain(t)
            },
        }
    } else {
        TypeShape::Plain(t)
    }
}

/// An owned copy of the base type of `t`.
pub fn base_ty(t: &TypeDesc) -> (r: TypeDesc)
    ensures
        r == base_spec(*t),
{
    match classify(t) {
        TypeShape::Wrapped(_, inner) => clone_type(inner),
        TypeShape::Plain(p) => clone_type(p),
    }
}

} // verus!
