//! The getters, setters and fields generators.
//!
//! All three walk the validated fields in declaration order, resolve the
//! field's `skip` directive, and emit accessor operations for every field
//! not skipped.  Getters emit one read operation per field; setters emit the
//! three mutators; fields emits both sets, with documentation text per
//! operation.  A value-bearing `skip` fails the whole generation for the
//! record (all-or-nothing, first offending field wins).

use vstd::prelude::*;

use crate::classify::base_ty;
use crate::classify::inner_spec;
use crate::classify::is_wrapped;
use crate::classify::wrapped_spec;
use crate::directive::Directive;
use crate::directive::DirectiveError;
use crate::directive::GenKind;
use crate::directive::all_ok;
use crate::directive::first_err;
use crate::directive::parse_all;
use crate::directive::parse_spec;
use crate::plan::AccessorOp;
use crate::plan::DocKind;
use crate::plan::FieldPlan;
use crate::plan::GenError;
use crate::plan::GetterPlan;
use crate::plan::OpBody;
use crate::plan::OpKind;
use crate::plan::RetDesc;
use crate::plan::SetterPlan;
use crate::schema::FieldSpec;
use crate::schema::RecordSpec;
use crate::schema::clone_type;
use crate::schema::fields_of;
use crate::schema::shape_ok;
use crate::validate::shape_err;
use crate::validate::validate;

verus! {

/// A field takes part in generation for `k` when it carries no directive at
/// all for that generator.
pub open spec fn kept(f: FieldSpec, k: GenKind) -> bool {
    parse_spec(f, k) == Ok::<Directive, DirectiveError>(Directive::Absent)
}

/// The read operation for a field: named like the field; a plain field is
/// returned by reference, a wrapper field as an optional reference to the
/// inner type, read through the presence layer.
pub open spec fn read_op(f: FieldSpec, doc: Option<DocKind>) -> AccessorOp {
    AccessorOp {
        kind: OpKind::Get,
        field: f.name,
        param_ty: Option::None,
        ret: if wrapped_spec(f.ty) {
            RetDesc::OptionRefTo(inner_spec(f.ty))
        } else {
            RetDesc::RefTo(f.ty)
        },
        body: if wrapped_spec(f.ty) {
            OpBody::ReadFieldPresence(f.name)
        } else {
            OpBody::ReadField(f.name)
        },
        doc,
    }
}

/// The mutable-access operation for a field: `<field>_mut`, a mutable
/// reference to the declared type (mutation never unwraps).
pub open spec fn mut_op(f: FieldSpec, doc: Option<DocKind>) -> AccessorOp {
    AccessorOp {
        kind: OpKind::GetMut,
        field: f.name,
        param_ty: Option::None,
        ret: RetDesc::MutRefTo(f.ty),
        body: OpBody::BorrowFieldMut(f.name),
        doc,
    }
}

/// The chaining assignment for a field: `set_<field>(v)` with `v` typed
/// exactly as declared, yielding the owner by mutable reference.
pub open spec fn assign_op(f: FieldSpec, doc: Option<DocKind>) -> AccessorOp {
    AccessorOp {
        kind: OpKind::Assign,
        field: f.name,
        param_ty: Option::Some(f.ty),
        ret: RetDesc::SelfMutRef,
        body: OpBody::StoreField(f.name),
        doc,
    }
}

/// The fluent assignment for a field: `with_<field>(v)` with `v` typed
/// exactly as declared, consuming and yielding the owner by value.
pub open spec fn with_op(f: FieldSpec, doc: Option<DocKind>) -> AccessorOp {
    AccessorOp {
        kind: OpKind::With,
        field: f.name,
        param_ty: Option::Some(f.ty),
        ret: RetDesc::SelfValue,
        body: OpBody::StoreField(f.name),
        doc,
    }
}

/// The read operations the getters generator owes a field list.
pub open spec fn getter_ops(fs: Seq<FieldSpec>) -> Seq<AccessorOp>
    decreases fs.len(),
{
    if fs.len() == 0 {
        Seq::empty()
    } else {
        let init = getter_ops(fs.drop_last());
        if kept(fs.last(), GenKind::Getters) {
            init.push(read_op(fs.last(), Option::None))
        } else {
            init
        }
    }
}

/// The three mutator operations for one field.
pub open spec fn setter_ops_of(f: FieldSpec) -> Seq<AccessorOp> {
    seq![mut_op(f, Option::None), assign_op(f, Option::None), with_op(f, Option::None)]
}

/// The mutator operations the setters generator owes a field list.
pub open spec fn setter_ops(fs: Seq<FieldSpec>) -> Seq<AccessorOp>
    decreases fs.len(),
{
    if fs.len() == 0 {
        Seq::empty()
    } else {
        let init = setter_ops(fs.drop_last());
        if kept(fs.last(), GenKind::Setters) {
            init + setter_ops_of(fs.last())
        } else {
            init
        }
    }
}

/// The four documented operations for one field of the fields generator.
pub open spec fn field_ops_of(f: FieldSpec) -> Seq<AccessorOp> {
    seq![
        mut_op(f, Option::Some(DocKind::ReadsFieldMut)),
        assign_op(f, Option::Some(DocKind::WritesField)),
        with_op(f, Option::Some(DocKind::WritesField)),
        read_op(f, Option::Some(DocKind::ReadsField)),
    ]
}

/// The operations the fields generator owes a field list.
pub open spec fn field_ops(fs: Seq<FieldSpec>) -> Seq<AccessorOp>
    decreases fs.len(),
{
    if fs.len() == 0 {
        Seq::empty()
    } else {
        let init = field_ops(fs.drop_last());
        if kept(fs.last(), GenKind::Fields) {
            init + field_ops_of(fs.last())
        } else {
            init
        }
    }
}

/// An owned copy of the read operation for `f`.
fn build_read_op(f: &FieldSpec, doc: Option<DocKind>) -> (op: AccessorOp)
    ensures
        op == read_op(*f, doc),
{
    if is_wrapped(&f.ty) {
        AccessorOp {
            kind: OpKind::Get,
            field: f.name.clone(),
            param_ty: Option::None,
            ret: RetDesc::OptionRefTo(base_ty(&f.ty)),
            body: OpBody::ReadFieldPresence(f.name.clone()),
            doc,
        }
    } else {
        AccessorOp {
            kind: OpKind::Get,
            field: f.name.clone(),
            param_ty: Option::None,
            ret: RetDesc::RefTo(clone_type(&f.ty)),
            body: OpBody::ReadField(f.name.clone()),
            doc,
        }
    }
}

/// An owned copy of the mutable-access operation for `f`.
fn build_mut_op(f: &FieldSpec, doc: Option<DocKind>) -> (op: AccessorOp)
    ensures
        op == mut_op(*f, doc),
{
    AccessorOp {
        kind: OpKind::GetMut,
        field: f.name.clone(),
        param_ty: Option::None,
        ret: RetDesc::MutRefTo(clone_type(&f.ty)),
        body: OpBody::BorrowFieldMut(f.name.clone()),
        doc,
    }
}

/// An owned copy of the chaining assignment for `f`.
fn build_assign_op(f: &FieldSpec, doc: Option<DocKind>) -> (op: AccessorOp)
    ensures
        op == assign_op(*f, doc),
{
    AccessorOp {
        kind: OpKind::Assign,
        field: f.name.clone(),
        param_ty: Option::Some(clone_type(&f.ty)),
        ret: RetDesc::SelfMutRef,
        body: OpBody::StoreField(f.name.clone()),
        doc,
    }
}

/// An owned copy of the fluent assignment for `f`.
fn build_with_op(f: &FieldSpec, doc: Option<DocKind>) -> (op: AccessorOp)
    ensures
        op == with_op(*f, doc),
{
    AccessorOp {
        kind: OpKind::With,
        field: f.name.clone(),
        param_ty: Option::Some(clone_type(&f.ty)),
        ret: RetDesc::SelfValue,
        body: OpBody::StoreField(f.name.clone()),
        doc,
    }
}

/// Plans the read accessors of a record: one operation per field without a
/// `skip` directive, in declaration order.
pub fn generate_getters(r: &RecordSpec) -> (res: Result<GetterPlan, GenError>)
    ensures
        match res {
            Ok(plan) => shape_ok(*r) && all_ok(fields_of(*r), GenKind::Getters) && plan.owner
                == r.name && plan.ops@ == getter_ops(fields_of(*r)),
            Err(GenError::Shape(e)) => !shape_ok(*r) && e == shape_err(*r, GenKind::Getters),
            Err(GenError::Directive(e)) => shape_ok(*r) && first_err(
                fields_of(*r),
                GenKind::Getters,
                e,
            ),
        },
{
    let fields = match validate(r, GenKind::Getters) {
        Ok(fs) => fs,
        Err(e) => {
            return Err(GenError::Shape(e));
        },
    };
    let ds = match parse_all(fields, GenKind::Getters) {
        Ok(ds) => ds,
        Err(e) => {
            return Err(GenError::Directive(e));
        },
    };
    let n = fields.len();
    let mut ops: Vec<AccessorOp> = Vec::new();
    let mut i: usize = 0;
    while i < n
        invariant
            i <= n,
            n == fields@.len(),
            fields@ == fields_of(*r),
            ds@.len() == n,
            forall|j: int| 0 <= j < n ==> #[trigger] parse_spec(fields@[j], GenKind::Getters)
                == Ok::<Directive, DirectiveError>(ds@[j]),
            ops@ == getter_ops(fields@.take(i as int)),
        decreases n - i,
    {
        let f = &fields[i];
        let keep = match &ds[i] {
            Directive::Absent => true,
            _ => false,
        };
        if keep {
            let op = build_read_op(f, Option::None);
            ops.push(op);
        }
        proof {
            assert(fields@.take(i as int + 1).drop_last() =~= fields@.take(i as int));
            assert(fields@.take(i as int + 1).last() == fields@[i as int]);
        }
        i += 1;
    }
    proof {
        assert(fields@.take(n as int) =~= fields@);
    }
    Ok(GetterPlan { owner: r.name.clone(), ops })
}

/// Plans the mutators of a record: three operations per field without a
/// `skip` directive, in declaration order.
pub fn generate_setters(r: &RecordSpec) -> (res: Result<SetterPlan, GenError>)
    ensures
        match res {
            Ok(plan) => shape_ok(*r) && all_ok(fields_of(*r), GenKind::Setters) && plan.owner
                == r.name && plan.ops@ == setter_ops(fields_of(*r)),
            Err(GenError::Shape(e)) => !shape_ok(*r) && e == shape_err(*r, GenKind::Setters),
            Err(GenError::Directive(e)) => shape_ok(*r) && first_err(
                fields_of(*r),
                GenKind::Setters,
                e,
            ),
        },
{
    let fields = match validate(r, GenKind::Setters) {
        Ok(fs) => fs,
        Err(e) => {
            return Err(GenError::Shape(e));
        },
    };
    let ds = match parse_all(fields, GenKind::Setters) {
        Ok(ds) => ds,
        Err(e) => {
            return Err(GenError::Directive(e));
        },
    };
    let n = fields.len();
    let mut ops: Vec<AccessorOp> = Vec::new();
    let mut i: usize = 0;
    while i < n
        invariant
            i <= n,
            n == fields@.len(),
            fields@ == fields_of(*r),
            ds@.len() == n,
            forall|j: int| 0 <= j < n ==> #[trigger] parse_spec(fields@[j], GenKind::Setters)
                == Ok::<Directive, DirectiveError>(ds@[j]),
            ops@ == setter_ops(fields@.take(i as int)),
        decreases n - i,
    {
        let f = &fields[i];
        let keep = match &ds[i] {
            Directive::Absent => true,
            _ => false,
        };
        if keep {
            ops.push(build_mut_op(f, Option::None));
            ops.push(build_assign_op(f, Option::None));
            ops.push(build_with_op(f, Option::None));
        }
        proof {
            assert(fields@.take(i as int + 1).drop_last() =~= fields@.take(i as int));
            assert(fields@.take(i as int + 1).last() == fields@[i as int]);
            if kept(fields@[i as int], GenKind::Setters) {
                assert(ops@ =~= setter_ops(fields@.take(i as int)) + setter_ops_of(
                    fields@[i as int],
                ));
            }
        }
        i += 1;
    }
    proof {
        assert(fields@.take(n as int) =~= fields@);
    }
    Ok(SetterPlan { owner: r.name.clone(), ops })
}

/// Plans the combined accessors of a record: the mutators and the read
/// operation per field without a `skip` directive, each operation carrying
/// documentation text.
pub fn generate_fields(r: &RecordSpec) -> (res: Result<FieldPlan, GenError>)
    ensures
        match res {
            Ok(plan) => shape_ok(*r) && all_ok(fields_of(*r), GenKind::Fields) && plan.owner
                == r.name && plan.ops@ == field_ops(fields_of(*r)),
            Err(GenError::Shape(e)) => !shape_ok(*r) && e == shape_err(*r, GenKind::Fields),
            Err(GenError::Directive(e)) => shape_ok(*r) && first_err(
                fields_of(*r),
                GenKind::Fields,
                e,
            ),
        },
{
    let fields = match validate(r, GenKind::Fields) {
        Ok(fs) => fs,
        Err(e) => {
            return Err(GenError::Shape(e));
        },
    };
    let ds = match parse_all(fields, GenKind::Fields) {
        Ok(ds) => ds,
        Err(e) => {
            return Err(GenError::Directive(e));
        },
    };
    let n = fields.len();
    let mut ops: Vec<AccessorOp> = Vec::new();
    let mut i: usize = 0;
    while i < n
        invariant
            i <= n,
            n == fields@.len(),
            fields@ == fields_of(*r),
            ds@.len() == n,
            forall|j: int| 0 <= j < n ==> #[trigger] parse_spec(fields@[j], GenKind::Fields)
                == Ok::<Directive, DirectiveError>(ds@[j]),
            ops@ == field_ops(fields@.take(i as int)),
        decreases n - i,
    {
        let f = &fields[i];
        let keep = match &ds[i] {
            Directive::Absent => true,
            _ => false,
        };
        if keep {
            ops.push(build_mut_op(f, Option::Some(DocKind::ReadsFieldMut)));
            ops.push(build_assign_op(f, Option::Some(DocKind::WritesField)));
            ops.push(build_with_op(f, Option::Some(DocKind::WritesField)));
            ops.push(build_read_op(f, Option::Some(DocKind::ReadsField)));
        }
        proof {
            assert(fields@.take(i as int + 1).drop_last() =~= fields@.take(i as int));
            assert(fields@.take(i as int + 1).last() == fields@[i as int]);
            if kept(fields@[i as int], GenKind::Fields) {
                assert(ops@ =~= field_ops(fields@.take(i as int)) + field_ops_of(
                    fields@[i as int],
                ));
            }
        }
        i += 1;
    }
    proof {
        assert(fields@.take(n as int) =~= fields@);
    }
    Ok(FieldPlan { owner: r.name.clone(), ops })
}

} // verus!
