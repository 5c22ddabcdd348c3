use pod::ctor::{generate_ctor, run_ctor};
use pod::directive::DirectiveErrorKind;
use pod::plan::{CtorInit, DirectiveName, GenError};
use pod::schema::{AttrItem, FieldSpec, MetaForm, RecordBody, RecordSpec, SrcLoc, TypeDesc, Visibility};
use pod::value::FieldValue;

fn loc() -> SrcLoc {
    SrcLoc { line: 1, col: 1 }
}

fn ty(name: &str) -> TypeDesc {
    TypeDesc { name: name.to_string(), arg: None }
}

fn field(name: &str, t: TypeDesc) -> FieldSpec {
    FieldSpec { name: name.to_string(), vis: Visibility::Private, ty: t, attrs: vec![] }
}

fn field_attrs(name: &str, t: TypeDesc, attrs: Vec<AttrItem>) -> FieldSpec {
    FieldSpec { name: name.to_string(), vis: Visibility::Private, ty: t, attrs }
}

fn attr(ns: &str, name: &str, form: MetaForm) -> AttrItem {
    AttrItem { namespace: ns.to_string(), name: name.to_string(), form, loc: loc() }
}

fn record(fields: Vec<FieldSpec>) -> RecordSpec {
    RecordSpec { name: "Data".to_string(), loc: loc(), body: RecordBody::NamedFields(fields) }
}

fn expr(e: &str) -> FieldValue {
    FieldValue::ExprOf(e.to_string())
}

#[test]
fn parameters_follow_declaration_order_without_skipped_fields() {
    let r = record(vec![
        field("field0", ty("usize")),
        field_attrs(
            "field1",
            ty("u8"),
            vec![attr("ctor", "skip", MetaForm::WithValue("0".to_string()))],
        ),
        field("field2", ty("bool")),
    ]);
    let plan = generate_ctor(&r).unwrap();
    assert_eq!(plan.owner, "Data");
    assert_eq!(plan.params.len(), 2);
    assert_eq!(plan.params[0].name, "field0");
    assert_eq!(plan.params[0].ty, ty("usize"));
    assert_eq!(plan.params[1].name, "field2");
    assert_eq!(plan.params[1].ty, ty("bool"));
    assert_eq!(plan.inits.len(), 3);
    assert_eq!(plan.inits[0].init, CtorInit::FromParam(0));
    assert_eq!(plan.inits[1].init, CtorInit::FromExpr("0".to_string()));
    assert_eq!(plan.inits[2].init, CtorInit::FromParam(1));
}

#[test]
fn skipped_field_always_takes_the_substitute_expression() {
    // `field2` carries `skip = "hello from 42"`: a two-parameter constructor
    // that sets `field2` from the literal, whatever the arguments are
    let r = record(vec![
        field("field0", ty("usize")),
        field("field1", ty("f32")),
        field_attrs(
            "field2",
            ty("String"),
            vec![attr(
                "ctor",
                "skip",
                MetaForm::WithValue("\"hello from 42\"".to_string()),
            )],
        ),
    ]);
    let plan = generate_ctor(&r).unwrap();
    assert_eq!(plan.params.len(), 2);
    assert_eq!(plan.params[0].name, "field0");
    assert_eq!(plan.params[1].name, "field1");

    let out = run_ctor(&plan, &vec![expr("42"), expr("0.5")]);
    assert_eq!(out, vec![expr("42"), expr("0.5"), expr("\"hello from 42\"")]);

    let out = run_ctor(&plan, &vec![expr("7"), expr("9.25")]);
    assert_eq!(out[2], expr("\"hello from 42\""));

    assert_eq!(plan.trace.len(), 1);
    assert_eq!(plan.trace[0].field, "field2");
    assert_eq!(plan.trace[0].directive, DirectiveName::SkipName);
    assert_eq!(plan.trace[0].value, "\"hello from 42\"");
}

#[test]
fn bare_skip_fails_the_generation() {
    let r = record(vec![
        field("field0", ty("usize")),
        field_attrs("field1", ty("u8"), vec![attr("ctor", "skip", MetaForm::Marker)]),
    ]);
    match generate_ctor(&r).unwrap_err() {
        GenError::Directive(e) => {
            assert_eq!(e.kind, DirectiveErrorKind::SkipMustHaveValue);
            assert_eq!(e.field, "field1");
        },
        GenError::Shape(_) => panic!("expected a directive error"),
    }
}

#[test]
fn list_skip_fails_the_generation_too() {
    let r = record(vec![field_attrs(
        "field0",
        ty("usize"),
        vec![attr("ctor", "skip", MetaForm::ListForm)],
    )]);
    match generate_ctor(&r).unwrap_err() {
        GenError::Directive(e) => assert_eq!(e.kind, DirectiveErrorKind::SkipMustHaveValue),
        GenError::Shape(_) => panic!("expected a directive error"),
    }
}

#[test]
fn all_parameters_feed_their_own_fields() {
    let r = record(vec![field("field0", ty("usize")), field("field1", ty("bool"))]);
    let plan = generate_ctor(&r).unwrap();
    assert_eq!(plan.trace.len(), 0);
    let out = run_ctor(&plan, &vec![expr("1"), expr("true")]);
    assert_eq!(out, vec![expr("1"), expr("true")]);
}
