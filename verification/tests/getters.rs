use pod::accessors::generate_getters;
use pod::classify::{classify, is_wrapped, TypeShape};
use pod::directive::DirectiveErrorKind;
use pod::plan::{GenError, OpBody, OpKind, RetDesc};
use pod::schema::{AttrItem, FieldSpec, MetaForm, RecordBody, RecordSpec, SrcLoc, TypeDesc, Visibility};

fn loc() -> SrcLoc {
    SrcLoc { line: 1, col: 1 }
}

fn ty(name: &str) -> TypeDesc {
    TypeDesc { name: name.to_string(), arg: None }
}

fn opt_of(inner: TypeDesc) -> TypeDesc {
    TypeDesc { name: "Option".to_string(), arg: Some(Box::new(inner)) }
}

fn field(name: &str, t: TypeDesc) -> FieldSpec {
    FieldSpec { name: name.to_string(), vis: Visibility::Private, ty: t, attrs: vec![] }
}

fn field_attrs(name: &str, t: TypeDesc, attrs: Vec<AttrItem>) -> FieldSpec {
    FieldSpec { name: name.to_string(), vis: Visibility::Private, ty: t, attrs }
}

fn attr(ns: &str, name: &str, form: MetaForm) -> AttrItem {
    AttrItem { namespace: ns.to_string(), name: name.to_string(), form, loc: loc() }
}

fn record(fields: Vec<FieldSpec>) -> RecordSpec {
    RecordSpec { name: "Data".to_string(), loc: loc(), body: RecordBody::NamedFields(fields) }
}

#[test]
fn wrapper_classification_goes_by_the_name_option() {
    assert!(is_wrapped(&opt_of(ty("usize"))));
    assert!(!is_wrapped(&ty("usize")));
    // a bare `Option` with no type argument is not a wrapper
    assert!(!is_wrapped(&ty("Option")));
    // any other single-argument container stays plain
    let vec_u8 = TypeDesc { name: "Vec".to_string(), arg: Some(Box::new(ty("u8"))) };
    assert!(!is_wrapped(&vec_u8));
    match classify(&opt_of(ty("usize"))) {
        TypeShape::Wrapped(outer, inner) => {
            assert_eq!(outer, "Option");
            assert_eq!(*inner, ty("usize"));
        },
        TypeShape::Plain(_) => panic!("expected a wrapper"),
    }
}

#[test]
fn plain_field_gets_one_reference_getter() {
    let r = record(vec![field("field0", ty("usize"))]);
    let plan = generate_getters(&r).unwrap();
    assert_eq!(plan.ops.len(), 1);
    assert_eq!(plan.ops[0].kind, OpKind::Get);
    assert_eq!(plan.ops[0].field, "field0");
    assert_eq!(plan.ops[0].param_ty, None);
    assert_eq!(plan.ops[0].ret, RetDesc::RefTo(ty("usize")));
    assert_eq!(plan.ops[0].body, OpBody::ReadField("field0".to_string()));
    assert_eq!(plan.ops[0].doc, None);
}

#[test]
fn wrapper_field_gets_an_optional_reference_getter() {
    let r = record(vec![field("field2", opt_of(ty("usize")))]);
    let plan = generate_getters(&r).unwrap();
    assert_eq!(plan.ops.len(), 1);
    assert_eq!(plan.ops[0].ret, RetDesc::OptionRefTo(ty("usize")));
    assert_eq!(plan.ops[0].body, OpBody::ReadFieldPresence("field2".to_string()));
}

#[test]
fn getters_for_the_three_field_record() {
    let r = record(vec![
        field("field0", ty("usize")),
        field("field1", ty("f32")),
        field("field2", opt_of(ty("usize"))),
    ]);
    let plan = generate_getters(&r).unwrap();
    assert_eq!(plan.owner, "Data");
    assert_eq!(plan.ops.len(), 3);
    assert_eq!(plan.ops[0].field, "field0");
    assert_eq!(plan.ops[0].ret, RetDesc::RefTo(ty("usize")));
    assert_eq!(plan.ops[1].field, "field1");
    assert_eq!(plan.ops[1].ret, RetDesc::RefTo(ty("f32")));
    assert_eq!(plan.ops[2].field, "field2");
    assert_eq!(plan.ops[2].ret, RetDesc::OptionRefTo(ty("usize")));
}

#[test]
fn skipped_field_is_omitted_without_error() {
    let r = record(vec![
        field("field0", ty("usize")),
        field_attrs("field1", ty("u8"), vec![attr("getters", "skip", MetaForm::Marker)]),
        field("field2", ty("bool")),
    ]);
    let plan = generate_getters(&r).unwrap();
    assert_eq!(plan.ops.len(), 2);
    assert_eq!(plan.ops[0].field, "field0");
    assert_eq!(plan.ops[1].field, "field2");
}

#[test]
fn value_bearing_skip_fails_the_whole_generation() {
    let r = record(vec![
        field("field0", ty("usize")),
        field_attrs(
            "field1",
            ty("u8"),
            vec![attr("getters", "skip", MetaForm::WithValue("0".to_string()))],
        ),
    ]);
    match generate_getters(&r).unwrap_err() {
        GenError::Directive(e) => {
            assert_eq!(e.kind, DirectiveErrorKind::SkipMustNotHaveValue);
            assert_eq!(e.field, "field1");
        },
        GenError::Shape(_) => panic!("expected a directive error"),
    }
}
