use pod::accessors::{generate_fields, generate_setters};
use pod::directive::DirectiveErrorKind;
use pod::plan::{DocKind, GenError, OpBody, OpKind, RetDesc};
use pod::schema::{AttrItem, FieldSpec, MetaForm, RecordBody, RecordSpec, SrcLoc, TypeDesc, Visibility};

fn loc() -> SrcLoc {
    SrcLoc { line: 1, col: 1 }
}

fn ty(name: &str) -> TypeDesc {
    TypeDesc { name: name.to_string(), arg: None }
}

fn opt_of(inner: TypeDesc) -> TypeDesc {
    TypeDesc { name: "Option".to_string(), arg: Some(Box::new(inner)) }
}

fn field(name: &str, t: TypeDesc) -> FieldSpec {
    FieldSpec { name: name.to_string(), vis: Visibility::Private, ty: t, attrs: vec![] }
}

fn field_attrs(name: &str, t: TypeDesc, attrs: Vec<AttrItem>) -> FieldSpec {
    FieldSpec { name: name.to_string(), vis: Visibility::Private, ty: t, attrs }
}

fn attr(ns: &str, name: &str, form: MetaForm) -> AttrItem {
    AttrItem { namespace: ns.to_string(), name: name.to_string(), form, loc: loc() }
}

fn record(fields: Vec<FieldSpec>) -> RecordSpec {
    RecordSpec { name: "Data".to_string(), loc: loc(), body: RecordBody::NamedFields(fields) }
}

#[test]
fn setters_emit_three_mutators_per_field() {
    let r = record(vec![field("field0", ty("usize"))]);
    let plan = generate_setters(&r).unwrap();
    assert_eq!(plan.owner, "Data");
    assert_eq!(plan.ops.len(), 3);
    assert_eq!(plan.ops[0].kind, OpKind::GetMut);
    assert_eq!(plan.ops[0].ret, RetDesc::MutRefTo(ty("usize")));
    assert_eq!(plan.ops[0].body, OpBody::BorrowFieldMut("field0".to_string()));
    assert_eq!(plan.ops[1].kind, OpKind::Assign);
    assert_eq!(plan.ops[1].param_ty, Some(ty("usize")));
    assert_eq!(plan.ops[1].ret, RetDesc::SelfMutRef);
    assert_eq!(plan.ops[2].kind, OpKind::With);
    assert_eq!(plan.ops[2].param_ty, Some(ty("usize")));
    assert_eq!(plan.ops[2].ret, RetDesc::SelfValue);
    assert!(plan.ops.iter().all(|op| op.doc.is_none()));
}

#[test]
fn setters_never_unwrap_a_wrapper_field() {
    let r = record(vec![field("field2", opt_of(ty("usize")))]);
    let plan = generate_setters(&r).unwrap();
    // the mutable accessor borrows the declared type, the assignments take it
    assert_eq!(plan.ops[0].ret, RetDesc::MutRefTo(opt_of(ty("usize"))));
    assert_eq!(plan.ops[1].param_ty, Some(opt_of(ty("usize"))));
    assert_eq!(plan.ops[2].param_ty, Some(opt_of(ty("usize"))));
}

#[test]
fn setters_skip_omits_the_field() {
    let r = record(vec![
        field_attrs("field0", ty("usize"), vec![attr("setters", "skip", MetaForm::Marker)]),
        field("field1", ty("u8")),
    ]);
    let plan = generate_setters(&r).unwrap();
    assert_eq!(plan.ops.len(), 3);
    assert!(plan.ops.iter().all(|op| op.field == "field1"));
}

#[test]
fn setters_value_skip_fails() {
    let r = record(vec![field_attrs(
        "field0",
        ty("usize"),
        vec![attr("setters", "skip", MetaForm::WithValue("1".to_string()))],
    )]);
    match generate_setters(&r).unwrap_err() {
        GenError::Directive(e) => assert_eq!(e.kind, DirectiveErrorKind::SkipMustNotHaveValue),
        GenError::Shape(_) => panic!("expected a directive error"),
    }
}

#[test]
fn fields_emit_the_four_documented_operations() {
    let r = record(vec![field("field0", ty("usize"))]);
    let plan = generate_fields(&r).unwrap();
    assert_eq!(plan.ops.len(), 4);
    assert_eq!(plan.ops[0].kind, OpKind::GetMut);
    assert_eq!(plan.ops[0].doc, Some(DocKind::ReadsFieldMut));
    assert_eq!(plan.ops[1].kind, OpKind::Assign);
    assert_eq!(plan.ops[1].doc, Some(DocKind::WritesField));
    assert_eq!(plan.ops[2].kind, OpKind::With);
    assert_eq!(plan.ops[2].doc, Some(DocKind::WritesField));
    assert_eq!(plan.ops[3].kind, OpKind::Get);
    assert_eq!(plan.ops[3].doc, Some(DocKind::ReadsField));
    assert_eq!(plan.ops[3].ret, RetDesc::RefTo(ty("usize")));
}

#[test]
fn fields_skip_omits_all_accessors_for_that_field() {
    // the three-field record with `field2` additionally marked skip
    let r = record(vec![
        field("field0", ty("usize")),
        field("field1", ty("f32")),
        field_attrs(
            "field2",
            opt_of(ty("usize")),
            vec![attr("fields", "skip", MetaForm::Marker)],
        ),
    ]);
    let plan = generate_fields(&r).unwrap();
    assert_eq!(plan.ops.len(), 8);
    assert!(plan.ops.iter().all(|op| op.field != "field2"));
    assert!(plan.ops.iter().filter(|op| op.field == "field0").count() == 4);
    assert!(plan.ops.iter().filter(|op| op.field == "field1").count() == 4);
}

#[test]
fn fields_value_skip_fails() {
    let r = record(vec![field_attrs(
        "field0",
        ty("usize"),
        vec![attr("fields", "skip", MetaForm::WithValue("1".to_string()))],
    )]);
    match generate_fields(&r).unwrap_err() {
        GenError::Directive(e) => assert_eq!(e.kind, DirectiveErrorKind::SkipMustNotHaveValue),
        GenError::Shape(_) => panic!("expected a directive error"),
    }
}
