use pod::accessors::{generate_fields, generate_getters, generate_setters};
use pod::builder::generate_builder;
use pod::ctor::generate_ctor;
use pod::directive::GenKind;
use pod::plan::GenError;
use pod::schema::{RecordBody, RecordSpec, SrcLoc};
use pod::validate::{validate, StructuralErrorKind};

fn record_of(body: RecordBody) -> RecordSpec {
    RecordSpec { name: "Data".to_string(), loc: SrcLoc { line: 10, col: 0 }, body }
}

fn kind_of(e: GenError) -> StructuralErrorKind {
    match e {
        GenError::Shape(s) => s.kind,
        GenError::Directive(_) => panic!("expected a structural error"),
    }
}

#[test]
fn unit_struct_is_rejected() {
    let r = record_of(RecordBody::UnitStruct);
    assert_eq!(
        kind_of(generate_builder(&r).unwrap_err()),
        StructuralErrorKind::UnsupportedUnitStruct
    );
    assert_eq!(
        kind_of(generate_getters(&r).unwrap_err()),
        StructuralErrorKind::UnsupportedUnitStruct
    );
}

#[test]
fn tuple_struct_is_rejected() {
    let r = record_of(RecordBody::TupleStruct);
    assert_eq!(
        kind_of(generate_setters(&r).unwrap_err()),
        StructuralErrorKind::UnsupportedTupleStruct
    );
    assert_eq!(
        kind_of(generate_fields(&r).unwrap_err()),
        StructuralErrorKind::UnsupportedTupleStruct
    );
}

#[test]
fn enum_input_is_rejected() {
    let r = record_of(RecordBody::EnumInput);
    assert_eq!(kind_of(generate_ctor(&r).unwrap_err()), StructuralErrorKind::UnsupportedEnum);
    assert_eq!(kind_of(generate_builder(&r).unwrap_err()), StructuralErrorKind::UnsupportedEnum);
}

#[test]
fn union_input_is_rejected() {
    let r = record_of(RecordBody::UnionInput);
    assert_eq!(kind_of(generate_getters(&r).unwrap_err()), StructuralErrorKind::UnsupportedUnion);
    assert_eq!(kind_of(generate_ctor(&r).unwrap_err()), StructuralErrorKind::UnsupportedUnion);
}

#[test]
fn the_diagnostic_carries_location_generator_and_message() {
    let r = record_of(RecordBody::EnumInput);
    let e = validate(&r, GenKind::Builder).unwrap_err();
    assert_eq!(e.loc, SrcLoc { line: 10, col: 0 });
    assert_eq!(e.gen, GenKind::Builder);
    assert_eq!(e.generator(), "Builder");
    assert_eq!(e.message(), "only available for structs");
    let r = record_of(RecordBody::UnitStruct);
    let e = validate(&r, GenKind::Getters).unwrap_err();
    assert_eq!(e.generator(), "Getters");
    assert_eq!(e.message(), "only available for structs with named fields");
}

#[test]
fn a_named_struct_passes_validation() {
    let r = record_of(RecordBody::NamedFields(vec![]));
    assert!(validate(&r, GenKind::Fields).is_ok());
    let plan = generate_getters(&r).unwrap();
    assert_eq!(plan.owner, "Data");
    assert_eq!(plan.ops.len(), 0);
}
