//! The structural validator: confirms the input record is a struct with
//! named fields and rejects every other shape with a specific diagnostic.

use vstd::prelude::*;

use crate::directive::GenKind;
use crate::schema::FieldSpec;
use crate::schema::RecordBody;
use crate::schema::RecordSpec;
use crate::schema::SrcLoc;
use crate::schema::fields_of;
use crate::schema::shape_ok;

verus! {

/// Which unworkable shape the input record had.
#[derive(Clone, Copy, Debug, PartialEq, Eq)]
pub enum StructuralErrorKind {
    UnsupportedUnitStruct,
    UnsupportedTupleStruct,
    UnsupportedEnum,
    UnsupportedUnion,
}

/// A structural diagnostic: the rejected shape, where the record stands in
/// the source, and which generator rejected it.
#[derive(Clone, Copy, Debug, PartialEq, Eq)]
pub struct StructuralError {
    pub kind: StructuralErrorKind,
    pub loc: SrcLoc,
    pub gen: GenKind,
}

/// The exact error the validator reports for an unworkable shape.
pub open spec fn shape_err(r: RecordSpec, gen: GenKind) -> StructuralError
    recommends
        !shape_ok(r),
{
    StructuralError {
        kind: match r.body {
            RecordBody::TupleStruct => StructuralErrorKind::UnsupportedTupleStruct,
            RecordBody::UnitStruct => StructuralErrorKind::UnsupportedUnitStruct,
            RecordBody::EnumInput => StructuralErrorKind::UnsupportedEnum,
            RecordBody::UnionInput => StructuralErrorKind::UnsupportedUnion,
            RecordBody::NamedFields(_) => StructuralErrorKind::UnsupportedUnitStruct,
        },
        loc: r.loc,
        gen,
    }
}

/// Accepts only a struct with named fields, handing its field list through;
/// any other shape is rejected with the error kind naming that shape.
pub fn validate<'a>(r: &'a RecordSpec, gen: GenKind) -> (res: Result<
    &'a Vec<FieldSpec>,
    StructuralError,
>)
    ensures
        match res {
            Ok(fs) => shape_ok(*r) && fs@ == fields_of(*r),
            Err(e) => !shape_ok(*r) && e == shape_err(*r, gen),
        },
{
    match &r.body {
        RecordBody::NamedFields(fs) => Ok(fs),
        RecordBody::TupleStruct => Err(
            StructuralError { kind: StructuralErrorKind::UnsupportedTupleStruct, loc: r.loc, gen },
        ),
        RecordBody::UnitStruct => Err(
            StructuralError { kind: StructuralErrorKind::UnsupportedUnitStruct, loc: r.loc, gen },
        ),
        RecordBody::EnumInput => Err(
            StructuralError { kind: StructuralErrorKind::UnsupportedEnum, loc: r.loc, gen },
        ),
        RecordBody::UnionInput => Err(
            StructuralError { kind: StructuralErrorKind::UnsupportedUnion, loc: r.loc, gen },
        ),
    }
}

/// The fixed diagnostic text for a rejected shape.
pub open spec fn shape_message(kind: StructuralErrorKind) -> Seq<char> {
    match kind {
        StructuralErrorKind::UnsupportedUnitStruct => "only available for structs with named fields"@,
        StructuralErrorKind::UnsupportedTupleStruct => "only available for structs with named fields"@,
        StructuralErrorKind::UnsupportedEnum => "only available for structs"@,
        StructuralErrorKind::UnsupportedUnion => "only available for structs"@,
    }
}

/// The name of the generator a diagnostic should be attributed to.
pub open spec fn gen_name(k: GenKind) -> Seq<char> {
    match k {
        GenKind::Builder => "Builder"@,
        GenKind::Getters => "Getters"@,
        GenKind::Setters => "Setters"@,
        GenKind::Fields => "Fields"@,
        GenKind::Ctor => "Ctor"@,
    }
}

impl StructuralError {
    /// The fixed human-readable message for this diagnostic.
    pub fn message(&self) -> (m: &'static str)
        ensures
            m@ == shape_message(self.kind),
    {
        match self.kind {
            StructuralErrorKind::UnsupportedUnitStruct => "only available for structs with named fields",
            StructuralErrorKind::UnsupportedTupleStruct => "only available for structs with named fields",
            StructuralErrorKind::UnsupportedEnum => "only available for structs",
            StructuralErrorKind::UnsupportedUnion => "only available for structs",
        }
    }

    /// The name of the generator that rejected the record.
    pub fn generator(&self) -> (m: &'static str)
        ensures
            m@ == gen_name(self.gen),
    {
        match self.gen {
            GenKind::Builder => "Builder",
            GenKind::Getters => "Getters",
            GenKind::Setters => "Setters",
            GenKind::Fields => "Fields",
            GenKind::Ctor => "Ctor",
        }
    }
}

} // verus!
