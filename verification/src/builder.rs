//! The builder generator and the meaning of the plan it produces.
//!
//! The companion type holds one presence-wrapped slot per record field; its
//! zero value leaves every slot absent, which is how "never supplied" is
//! told apart from any supplied value.  `build()` resolves every field
//! totally: a present slot value is taken, an absent slot falls back to the
//! field's `default` expression when one was given and to the declared
//! type's zero value otherwise; a wrapper field's resolved value gets the
//! presence layer reapplied.

use vstd::prelude::*;

use crate::classify::base_spec;
use crate::classify::base_ty;
use crate::classify::is_wrapped;
use crate::classify::wrapped_spec;
use crate::directive::Directive;
use crate::directive::DirectiveError;
use crate::directive::GenKind;
use crate::directive::all_ok;
use crate::directive::first_err;
use crate::directive::parse_all;
use crate::directive::parse_spec;
use crate::plan::AccessorOp;
use crate::plan::BuildField;
use crate::plan::BuilderPlan;
use crate::plan::DirectiveName;
use crate::plan::GenError;
use crate::plan::OpBody;
use crate::plan::OpKind;
use crate::plan::RetDesc;
use crate::plan::SlotSpec;
use crate::plan::TraceEntry;
use crate::schema::FieldSpec;
use crate::schema::RecordSpec;
use crate::schema::clone_type;
use crate::schema::fields_of;
use crate::schema::shape_ok;
use crate::validate::shape_err;
use crate::validate::validate;
use crate::value::FieldValue;
use crate::value::clone_value;

verus! {

/// The `default` expression the builder resolved for a field, if any.
pub open spec fn default_expr_of(f: FieldSpec) -> Option<String> {
    match parse_spec(f, GenKind::Builder) {
        Ok(Directive::DefaultValue(e)) => Option::Some(e),
        _ => Option::None,
    }
}

/// The companion field for one record field: same name and visibility, one
/// presence layer over the base type.
pub open spec fn slot_of(f: FieldSpec) -> SlotSpec {
    SlotSpec { name: f.name, vis: f.vis, base: base_spec(f.ty) }
}

/// The companion's field list for a field list.
pub open spec fn builder_slots(fs: Seq<FieldSpec>) -> Seq<SlotSpec>
    decreases fs.len(),
{
    if fs.len() == 0 {
        Seq::empty()
    } else {
        builder_slots(fs.drop_last()).push(slot_of(fs.last()))
    }
}

/// The builder's fluent assignment: `with_<field>(v)` takes the base type,
/// stores it with presence, and yields the builder by value.
pub open spec fn builder_with_op(f: FieldSpec) -> AccessorOp {
    AccessorOp {
        kind: OpKind::With,
        field: f.name,
        param_ty: Option::Some(base_spec(f.ty)),
        ret: RetDesc::SelfValue,
        body: OpBody::StoreFieldPresence(f.name),
        doc: Option::None,
    }
}

/// The builder's read accessor: named like the field, an optional reference
/// to the base type read through the presence layer.
pub open spec fn builder_read_op(f: FieldSpec) -> AccessorOp {
    AccessorOp {
        kind: OpKind::Get,
        field: f.name,
        param_ty: Option::None,
        ret: RetDesc::OptionRefTo(base_spec(f.ty)),
        body: OpBody::ReadFieldPresence(f.name),
        doc: Option::None,
    }
}

/// The builder's mutable accessor: `<field>_mut` borrows the whole
/// presence-wrapped slot.
pub open spec fn builder_mut_op(f: FieldSpec) -> AccessorOp {
    AccessorOp {
        kind: OpKind::GetMut,
        field: f.name,
        param_ty: Option::None,
        ret: RetDesc::MutRefPresence(base_spec(f.ty)),
        body: OpBody::BorrowFieldMut(f.name),
        doc: Option::None,
    }
}

/// The builder's chaining assignment: `set_<field>(v)` takes the base type,
/// stores it with presence, and yields the builder by mutable reference.
pub open spec fn builder_assign_op(f: FieldSpec) -> AccessorOp {
    AccessorOp {
        kind: OpKind::Assign,
        field: f.name,
        param_ty: Option::Some(base_spec(f.ty)),
        ret: RetDesc::SelfMutRef,
        body: OpBody::StoreFieldPresence(f.name),
        doc: Option::None,
    }
}

/// The four builder operations for one field.
pub open spec fn builder_ops_of(f: FieldSpec) -> Seq<AccessorOp> {
    seq![builder_with_op(f), builder_read_op(f), builder_mut_op(f), builder_assign_op(f)]
}

/// The builder operations for a field list: four per field, no field is
/// ever skipped.
pub open spec fn builder_ops(fs: Seq<FieldSpec>) -> Seq<AccessorOp>
    decreases fs.len(),
{
    if fs.len() == 0 {
        Seq::empty()
    } else {
        builder_ops(fs.drop_last()) + builder_ops_of(fs.last())
    }
}

/// The `build()` resolution entry for one field.
pub open spec fn build_field_of(f: FieldSpec) -> BuildField {
    BuildField {
        name: f.name,
        ty: f.ty,
        wrapped: wrapped_spec(f.ty),
        default_expr: default_expr_of(f),
    }
}

/// The `build()` resolution entries for a field list.
pub open spec fn build_fields(fs: Seq<FieldSpec>) -> Seq<BuildField>
    decreases fs.len(),
{
    if fs.len() == 0 {
        Seq::empty()
    } else {
        build_fields(fs.drop_last()).push(build_field_of(fs.last()))
    }
}

/// The trace of directive values the builder applies: one entry per field
/// with a `default` expression, in declaration order.
pub open spec fn builder_trace(fs: Seq<FieldSpec>) -> Seq<TraceEntry>
    decreases fs.len(),
{
    if fs.len() == 0 {
        Seq::empty()
    } else {
        let init = builder_trace(fs.drop_last());
        match default_expr_of(fs.last()) {
            Option::Some(e) => init.push(
                TraceEntry {
                    field: fs.last().name,
                    directive: DirectiveName::DefaultName,
                    value: e,
                },
            ),
            Option::None => init,
        }
    }
}

/// Plans the companion builder of a record.
pub fn generate_builder(r: &RecordSpec) -> (res: Result<BuilderPlan, GenError>)
    ensures
        match res {
            Ok(plan) => shape_ok(*r) && all_ok(fields_of(*r), GenKind::Builder) && plan.owner
                == r.name && plan.slots@ == builder_slots(fields_of(*r)) && plan.ops@
                == builder_ops(fields_of(*r)) && plan.build@ == build_fields(fields_of(*r))
                && plan.trace@ == builder_trace(fields_of(*r)),
            Err(GenError::Shape(e)) => !shape_ok(*r) && e == shape_err(*r, GenKind::Builder),
            Err(GenError::Directive(e)) => shape_ok(*r) && first_err(
                fields_of(*r),
                GenKind::Builder,
                e,
            ),
        },
{
    let fields = match validate(r, GenKind::Builder) {
        Ok(fs) => fs,
        Err(e) => {
            return Err(GenError::Shape(e));
        },
    };
    let ds = match parse_all(fields, GenKind::Builder) {
        Ok(ds) => ds,
        Err(e) => {
            return Err(GenError::Directive(e));
        },
    };
    let n = fields.len();
    let mut slots: Vec<SlotSpec> = Vec::new();
    let mut ops: Vec<AccessorOp> = Vec::new();
    let mut build: Vec<BuildField> = Vec::new();
    let mut trace: Vec<TraceEntry> = Vec::new();
    let mut i: usize = 0;
    while i < n
        invariant
            i <= n,
            n == fields@.len(),
            fields@ == fields_of(*r),
            ds@.len() == n,
            forall|j: int| 0 <= j < n ==> #[trigger] parse_spec(fields@[j], GenKind::Builder)
                == Ok::<Directive, DirectiveError>(ds@[j]),
            slots@ == builder_slots(fields@.take(i as int)),
            ops@ == builder_ops(fields@.take(i as int)),
            build@ == build_fields(fields@.take(i as int)),
            trace@ == builder_trace(fields@.take(i as int)),
        decreases n - i,
    {
        let f = &fields[i];
        let wrapped = is_wrapped(&f.ty);
        slots.push(SlotSpec { name: f.name.clone(), vis: f.vis, base: base_ty(&f.ty) });
        ops.push(
            AccessorOp {
                kind: OpKind::With,
                field: f.name.clone(),
                param_ty: Option::Some(base_ty(&f.ty)),
                ret: RetDesc::SelfValue,
                body: OpBody::StoreFieldPresence(f.name.clone()),
                doc: Option::None,
            },
        );
        ops.push(
            AccessorOp {
                kind: OpKind::Get,
                field: f.name.clone(),
                param_ty: Option::None,
                ret: RetDesc::OptionRefTo(base_ty(&f.ty)),
                body: OpBody::ReadFieldPresence(f.name.clone()),
                doc: Option::None,
            },
        );
        ops.push(
            AccessorOp {
                kind: OpKind::GetMut,
                field: f.name.clone(),
                param_ty: Option::None,
                ret: RetDesc::MutRefPresence(base_ty(&f.ty)),
                body: OpBody::BorrowFieldMut(f.name.clone()),
                doc: Option::None,
            },
        );
        ops.push(
            AccessorOp {
                kind: OpKind::Assign,
                field: f.name.clone(),
                param_ty: Option::Some(base_ty(&f.ty)),
                ret: RetDesc::SelfMutRef,
                body: OpBody::StoreFieldPresence(f.name.clone()),
                doc: Option::None,
            },
        );
        let default_expr: Option<String> = match &ds[i] {
            Directive::DefaultValue(e) => Option::Some(e.clone()),
            _ => Option::None,
        };
        match &default_expr {
            Option::Some(e) => {
                trace.push(
                    TraceEntry {
                        field: f.name.clone(),
                        directive: DirectiveName::DefaultName,
                        value: e.clone(),
                    },
                );
            },
            Option::None => {},
        }
        build.push(
            BuildField { name: f.name.clone(), ty: clone_type(&f.ty), wrapped, default_expr },
        );
        proof {
            assert(fields@.take(i as int + 1).drop_last() =~= fields@.take(i as int));
            assert(fields@.take(i as int + 1).last() == fields@[i as int]);
            assert(ops@ =~= builder_ops(fields@.take(i as int)) + builder_ops_of(
                fields@[i as int],
            ));
        }
        i += 1;
    }
    proof {
        assert(fields@.take(n as int) =~= fields@);
    }
    Ok(BuilderPlan { owner: r.name.clone(), slots, ops, build, trace })
}

/// The running state of a planned builder: one slot per field, each either
/// absent or holding the supplied value.
#[derive(Debug, PartialEq, Eq)]
pub struct BuilderState {
    pub slots: Vec<Option<FieldValue>>,
}

/// The companion's zero value: every slot absent.
pub fn state_new(plan: &BuilderPlan) -> (s: BuilderState)
    ensures
        s.slots@.len() == plan.build@.len(),
        forall|i: int| 0 <= i < s.slots@.len() ==> #[trigger] s.slots@[i] is None,
{
    let n = plan.build.len();
    let mut slots: Vec<Option<FieldValue>> = Vec::new();
    let mut i: usize = 0;
    while i < n
        invariant
            i <= n,
            slots@.len() == i,
            forall|j: int| 0 <= j < i ==> #[trigger] slots@[j] is None,
        decreases n - i,
    {
        slots.push(Option::None);
        i += 1;
    }
    BuilderState { slots }
}

/// Supplying a value to a slot, as `with_<field>` and `set_<field>` both do:
/// the slot becomes present with the given value.
pub fn state_set(s: &mut BuilderState, i: usize, v: FieldValue)
    requires
        i < old(s).slots@.len(),
    ensures
        final(s).slots@ == old(s).slots@.update(i as int, Option::Some(v)),
{
    s.slots.set(i, Option::Some(v));
}

/// How `build()` resolves one field: what `out` must be, given the field's
/// resolution entry and the state of its slot.
pub open spec fn build_rel(bf: BuildField, slot: Option<FieldValue>, out: FieldValue) -> bool {
    match bf.default_expr {
        Option::Some(e) => {
            let inner = match slot {
                Option::Some(x) => x,
                Option::None => FieldValue::ExprOf(e),
            };
            if bf.wrapped {
                out matches FieldValue::Wrapped(b) && *b == inner
            } else {
                out == inner
            }
        },
        Option::None => match slot {
            Option::Some(x) => if bf.wrapped {
                out matches FieldValue::Wrapped(b) && *b == x
            } else {
                out == x
            },
            Option::None => out == FieldValue::ZeroOf(bf.ty),
        },
    }
}

/// Consumes the builder state and resolves every field of the target
/// record, in declaration order.  Resolution is total: it never fails for
/// any state of the slots.
pub fn run_build(plan: &BuilderPlan, state: BuilderState) -> (out: Vec<FieldValue>)
    requires
        state.slots@.len() == plan.build@.len(),
    ensures
        out@.len() == plan.build@.len(),
        forall|i: int| 0 <= i < out@.len() ==> #[trigger] build_rel(
            plan.build@[i],
            state.slots@[i],
            out@[i],
        ),
{
    let n = plan.build.len();
    let mut out: Vec<FieldValue> = Vec::new();
    let mut i: usize = 0;
    while i < n
        invariant
            i <= n,
            n == plan.build@.len(),
            state.slots@.len() == n,
            out@.len() == i,
            forall|j: int| 0 <= j < i ==> #[trigger] build_rel(
                plan.build@[j],
                state.slots@[j],
                out@[j],
            ),
        decreases n - i,
    {
        let bf = &plan.build[i];
        let slot = &state.slots[i];
        let v: FieldValue = match &bf.default_expr {
            Option::Some(e) => {
                let inner = match slot {
                    Option::Some(x) => clone_value(x),
                    Option::None => FieldValue::ExprOf(e.clone()),
                };
                if bf.wrapped {
                    FieldValue::Wrapped(Box::new(inner))
                } else {
                    inner
                }
            },
            Option::None => match slot {
                Option::Some(x) => {
                    let xv = clone_value(x);
                    if bf.wrapped {
                        FieldValue::Wrapped(Box::new(xv))
                    } else {
                        xv
                    }
                },
                Option::None => FieldValue::ZeroOf(clone_type(&bf.ty)),
            },
        };
        out.push(v);
        i += 1;
    }
    out
}

} // verus!
