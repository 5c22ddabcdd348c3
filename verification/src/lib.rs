//! Schema-driven synthesis of record boilerplate.
//!
//! Given the declared shape of a record type — its named fields, their type
//! descriptors and the per-field directives attached as attributes — this
//! crate plans the auxiliary operations that would otherwise be written by
//! hand: a companion builder, field accessors, field mutators and a
//! constructor.  The crate works on an abstract schema ([`schema::RecordSpec`])
//! and produces abstract plans; reading the host language's syntax tree and
//! rendering the plans back into source text are the front end's job.

use vstd::prelude::*;

pub mod accessors;
pub mod builder;
pub mod classify;
pub mod ctor;
pub mod directive;
pub mod laws;
pub mod plan;
pub mod schema;
pub mod validate;
pub mod value;

verus! {

/// Marker interface for record types that offer a companion builder.
///
/// `Target` is the companion type; `builder` hands out its zero-value state,
/// in which every field is still absent.
pub trait Builder {
    type Target;

    fn builder() -> Self::Target where Self: Sized;
}

} // verus!
