use pod::builder::{generate_builder, run_build, state_new, state_set};
use pod::plan::{DirectiveName, OpKind, RetDesc};
use pod::schema::{AttrItem, FieldSpec, MetaForm, RecordBody, RecordSpec, SrcLoc, TypeDesc, Visibility};
use pod::value::FieldValue;

fn loc() -> SrcLoc {
    SrcLoc { line: 1, col: 1 }
}

fn ty(name: &str) -> TypeDesc {
    TypeDesc { name: name.to_string(), arg: None }
}

fn opt_of(inner: TypeDesc) -> TypeDesc {
    TypeDesc { name: "Option".to_string(), arg: Some(Box::new(inner)) }
}

fn field(name: &str, t: TypeDesc) -> FieldSpec {
    FieldSpec { name: name.to_string(), vis: Visibility::Private, ty: t, attrs: vec![] }
}

fn field_attrs(name: &str, t: TypeDesc, attrs: Vec<AttrItem>) -> FieldSpec {
    FieldSpec { name: name.to_string(), vis: Visibility::Private, ty: t, attrs }
}

fn attr(ns: &str, name: &str, form: MetaForm) -> AttrItem {
    AttrItem { namespace: ns.to_string(), name: name.to_string(), form, loc: loc() }
}

fn record(fields: Vec<FieldSpec>) -> RecordSpec {
    RecordSpec { name: "Data".to_string(), loc: loc(), body: RecordBody::NamedFields(fields) }
}

fn expr(e: &str) -> FieldValue {
    FieldValue::ExprOf(e.to_string())
}

fn three_field_record() -> RecordSpec {
    record(vec![
        field("field0", ty("usize")),
        field("field1", ty("f32")),
        field_attrs(
            "field2",
            opt_of(ty("usize")),
            vec![attr("builder", "default", MetaForm::WithValue("42".to_string()))],
        ),
    ])
}

#[test]
fn companion_slots_are_presence_wrapped_base_types() {
    let plan = generate_builder(&three_field_record()).unwrap();
    assert_eq!(plan.owner, "Data");
    assert_eq!(plan.slots.len(), 3);
    assert_eq!(plan.slots[0].name, "field0");
    assert_eq!(plan.slots[0].base, ty("usize"));
    assert_eq!(plan.slots[1].base, ty("f32"));
    // the already-wrapped field's slot holds the inner type, one layer only
    assert_eq!(plan.slots[2].base, ty("usize"));
}

#[test]
fn builder_emits_four_accessors_per_field() {
    let plan = generate_builder(&three_field_record()).unwrap();
    assert_eq!(plan.ops.len(), 12);
    // operations trade in the base type, presence applied on store
    assert_eq!(plan.ops[0].kind, OpKind::With);
    assert_eq!(plan.ops[0].field, "field0");
    assert_eq!(plan.ops[0].param_ty, Some(ty("usize")));
    assert_eq!(plan.ops[0].ret, RetDesc::SelfValue);
    assert_eq!(plan.ops[1].kind, OpKind::Get);
    assert_eq!(plan.ops[1].ret, RetDesc::OptionRefTo(ty("usize")));
    assert_eq!(plan.ops[2].kind, OpKind::GetMut);
    assert_eq!(plan.ops[2].ret, RetDesc::MutRefPresence(ty("usize")));
    assert_eq!(plan.ops[3].kind, OpKind::Assign);
    assert_eq!(plan.ops[3].ret, RetDesc::SelfMutRef);
    // the wrapper field's accessors trade in the inner type
    assert_eq!(plan.ops[8].field, "field2");
    assert_eq!(plan.ops[8].param_ty, Some(ty("usize")));
}

#[test]
fn trace_records_each_default_actually_applied() {
    let plan = generate_builder(&three_field_record()).unwrap();
    assert_eq!(plan.trace.len(), 1);
    assert_eq!(plan.trace[0].field, "field2");
    assert_eq!(plan.trace[0].directive, DirectiveName::DefaultName);
    assert_eq!(plan.trace[0].value, "42");
}

#[test]
fn build_with_no_setters_and_no_defaults_yields_zero_values() {
    let r = record(vec![field("field0", ty("usize")), field("field1", ty("String"))]);
    let plan = generate_builder(&r).unwrap();
    let st = state_new(&plan);
    let out = run_build(&plan, st);
    assert_eq!(
        out,
        vec![FieldValue::ZeroOf(ty("usize")), FieldValue::ZeroOf(ty("String"))]
    );
}

#[test]
fn build_resolves_the_three_field_scenario() {
    // only field0 supplied, as 42; field2 falls back to its default, with the
    // presence layer reapplied; field1 keeps its zero value
    let plan = generate_builder(&three_field_record()).unwrap();
    let mut st = state_new(&plan);
    state_set(&mut st, 0, expr("42"));
    let out = run_build(&plan, st);
    assert_eq!(out.len(), 3);
    assert_eq!(out[0], expr("42"));
    assert_eq!(out[1], FieldValue::ZeroOf(ty("f32")));
    assert_eq!(out[2], FieldValue::Wrapped(Box::new(expr("42"))));
}

#[test]
fn a_supplied_value_beats_the_default() {
    let plan = generate_builder(&three_field_record()).unwrap();
    let mut st = state_new(&plan);
    state_set(&mut st, 2, expr("7"));
    let out = run_build(&plan, st);
    assert_eq!(out[2], FieldValue::Wrapped(Box::new(expr("7"))));
    assert_ne!(out[2], FieldValue::Wrapped(Box::new(expr("42"))));
}

#[test]
fn a_default_on_a_plain_field_is_not_presence_wrapped() {
    let r = record(vec![field_attrs(
        "field0",
        ty("usize"),
        vec![attr("builder", "default", MetaForm::WithValue("3".to_string()))],
    )]);
    let plan = generate_builder(&r).unwrap();
    let st = state_new(&plan);
    let out = run_build(&plan, st);
    assert_eq!(out, vec![expr("3")]);
}

#[test]
fn a_set_slot_on_a_plain_default_field_beats_the_expression() {
    let r = record(vec![field_attrs(
        "field0",
        ty("usize"),
        vec![attr("builder", "default", MetaForm::WithValue("3".to_string()))],
    )]);
    let plan = generate_builder(&r).unwrap();
    let mut st = state_new(&plan);
    state_set(&mut st, 0, expr("9"));
    let out = run_build(&plan, st);
    assert_eq!(out, vec![expr("9")]);
}

struct Sample;

struct SampleState {
    slots: Vec<Option<FieldValue>>,
}

impl pod::Builder for Sample {
    type Target = SampleState;

    fn builder() -> Self::Target {
        SampleState { slots: Vec::new() }
    }
}

#[test]
fn the_marker_interface_hands_out_a_companion() {
    let state = <Sample as pod::Builder>::builder();
    assert!(state.slots.is_empty());
}

#[test]
fn slot_visibility_follows_the_field() {
    let r = record(vec![FieldSpec {
        name: "field0".to_string(),
        vis: Visibility::Public,
        ty: ty("usize"),
        attrs: vec![],
    }]);
    let plan = generate_builder(&r).unwrap();
    assert_eq!(plan.slots[0].vis, Visibility::Public);
}
