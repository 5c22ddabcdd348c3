//! The constructor generator and the meaning of the plan it produces.
//!
//! The planned constructor takes one parameter per field without a `skip`
//! directive, in declaration order and typed exactly as declared.  A skipped
//! field is initialized from its directive's verbatim expression instead,
//! whatever arguments are passed.

use vstd::prelude::*;

use crate::directive::Directive;
use crate::directive::DirectiveError;
use crate::directive::GenKind;
use crate::directive::all_ok;
use crate::directive::first_err;
use crate::directive::parse_all;
use crate::directive::parse_spec;
use crate::plan::CtorField;
use crate::plan::CtorInit;
use crate::plan::CtorParam;
use crate::plan::CtorPlan;
use crate::plan::DirectiveName;
use crate::plan::GenError;
use crate::plan::TraceEntry;
use crate::schema::FieldSpec;
use crate::schema::RecordSpec;
use crate::schema::clone_type;
use crate::schema::fields_of;
use crate::schema::shape_ok;
use crate::validate::shape_err;
use crate::validate::validate;
use crate::value::FieldValue;
use crate::value::clone_value;

verus! {

/// The substitute initializer a `skip` directive supplies for a field, if
/// one is present.
pub open spec fn skip_expr_of(f: FieldSpec) -> Option<String> {
    match parse_spec(f, GenKind::Ctor) {
        Ok(Directive::SkipWithValue(e)) => Option::Some(e),
        _ => Option::None,
    }
}

/// A field becomes a constructor parameter when it carries no `skip`
/// directive.
pub open spec fn ctor_kept(f: FieldSpec) -> bool {
    skip_expr_of(f) is None
}

/// How many of the fields become parameters.
pub open spec fn count_kept(fs: Seq<FieldSpec>) -> int
    decreases fs.len(),
{
    if fs.len() == 0 {
        0
    } else {
        count_kept(fs.drop_last()) + if ctor_kept(fs.last()) {
            1int
        } else {
            0int
        }
    }
}

/// The parameter list: one entry per kept field, in declaration order,
/// typed exactly as declared.
pub open spec fn ctor_params(fs: Seq<FieldSpec>) -> Seq<CtorParam>
    decreases fs.len(),
{
    if fs.len() == 0 {
        Seq::empty()
    } else {
        let init = ctor_params(fs.drop_last());
        if ctor_kept(fs.last()) {
            init.push(CtorParam { name: fs.last().name, ty: fs.last().ty })
        } else {
            init
        }
    }
}

/// The initializer list: one entry per field; a kept field reads the
/// like-named parameter (by its position), a skipped field uses its
/// directive's expression verbatim.
pub open spec fn ctor_inits(fs: Seq<FieldSpec>) -> Seq<CtorField>
    decreases fs.len(),
{
    if fs.len() == 0 {
        Seq::empty()
    } else {
        let init = ctor_inits(fs.drop_last());
        let f = fs.last();
        init.push(
            CtorField {
                name: f.name,
                init: match skip_expr_of(f) {
                    Option::Some(e) => CtorInit::FromExpr(e),
                    Option::None => CtorInit::FromParam(count_kept(fs.drop_last()) as usize),
                },
            },
        )
    }
}

/// The trace of directive values the constructor applies: one entry per
/// skipped field, in declaration order.
pub open spec fn ctor_trace(fs: Seq<FieldSpec>) -> Seq<TraceEntry>
    decreases fs.len(),
{
    if fs.len() == 0 {
        Seq::empty()
    } else {
        let init = ctor_trace(fs.drop_last());
        match skip_expr_of(fs.last()) {
            Option::Some(e) => init.push(
                TraceEntry { field: fs.last().name, directive: DirectiveName::SkipName, value: e },
            ),
            Option::None => init,
        }
    }
}

/// Every parameter position an initializer names lies inside the parameter
/// list.
pub open spec fn ctor_inits_wf(inits: Seq<CtorField>, nparams: int) -> bool {
    forall|i: int| 0 <= i < inits.len() ==> (#[trigger] inits[i].init matches CtorInit::FromParam(
        j,
    ) ==> j < nparams)
}

/// The planned parameters and initializers line up: as many parameters as
/// kept fields, one initializer per field, every named position in range.
pub proof fn lemma_ctor_plan_wf(fs: Seq<FieldSpec>)
    ensures
        ctor_params(fs).len() == count_kept(fs),
        ctor_inits(fs).len() == fs.len(),
        0 <= count_kept(fs) <= fs.len(),
        ctor_inits_wf(ctor_inits(fs), count_kept(fs)),
    decreases fs.len(),
{
    if fs.len() > 0 {
        lemma_ctor_plan_wf(fs.drop_last());
    }
}

/// Plans the constructor of a record.
pub fn generate_ctor(r: &RecordSpec) -> (res: Result<CtorPlan, GenError>)
    ensures
        match res {
            Ok(plan) => shape_ok(*r) && all_ok(fields_of(*r), GenKind::Ctor) && plan.owner
                == r.name && plan.params@ == ctor_params(fields_of(*r)) && plan.inits@
                == ctor_inits(fields_of(*r)) && plan.trace@ == ctor_trace(fields_of(*r)),
            Err(GenError::Shape(e)) => !shape_ok(*r) && e == shape_err(*r, GenKind::Ctor),
            Err(GenError::Directive(e)) => shape_ok(*r) && first_err(
                fields_of(*r),
                GenKind::Ctor,
                e,
            ),
        },
{
    let fields = match validate(r, GenKind::Ctor) {
        Ok(fs) => fs,
        Err(e) => {
            return Err(GenError::Shape(e));
        },
    };
    let ds = match parse_all(fields, GenKind::Ctor) {
        Ok(ds) => ds,
        Err(e) => {
            return Err(GenError::Directive(e));
        },
    };
    let n = fields.len();
    let mut params: Vec<CtorParam> = Vec::new();
    let mut inits: Vec<CtorField> = Vec::new();
    let mut trace: Vec<TraceEntry> = Vec::new();
    let mut i: usize = 0;
    while i < n
        invariant
            i <= n,
            n == fields@.len(),
            fields@ == fields_of(*r),
            ds@.len() == n,
            forall|j: int| 0 <= j < n ==> #[trigger] parse_spec(fields@[j], GenKind::Ctor)
                == Ok::<Directive, DirectiveError>(ds@[j]),
            params@ == ctor_params(fields@.take(i as int)),
            params@.len() == count_kept(fields@.take(i as int)),
            inits@ == ctor_inits(fields@.take(i as int)),
            trace@ == ctor_trace(fields@.take(i as int)),
        decreases n - i,
    {
        let f = &fields[i];
        match &ds[i] {
            Directive::SkipWithValue(e) => {
                inits.push(CtorField { name: f.name.clone(), init: CtorInit::FromExpr(e.clone()) });
                trace.push(
                    TraceEntry {
                        field: f.name.clone(),
                        directive: DirectiveName::SkipName,
                        value: e.clone(),
                    },
                );
            },
            _ => {
                inits.push(
                    CtorField { name: f.name.clone(), init: CtorInit::FromParam(params.len()) },
                );
                params.push(CtorParam { name: f.name.clone(), ty: clone_type(&f.ty) });
            },
        }
        proof {
            assert(fields@.take(i as int + 1).drop_last() =~= fields@.take(i as int));
            assert(fields@.take(i as int + 1).last() == fields@[i as int]);
        }
        i += 1;
    }
    proof {
        assert(fields@.take(n as int) =~= fields@);
    }
    Ok(CtorPlan { owner: r.name.clone(), params, inits, trace })
}

/// What the planned constructor stores in one field, given the argument
/// list: the argument at the named position, or the value of the verbatim
/// substitute expression, whatever the arguments are.
pub open spec fn ctor_rel(cf: CtorField, args: Seq<FieldValue>, out: FieldValue) -> bool {
    match cf.init {
        CtorInit::FromExpr(e) => out == FieldValue::ExprOf(e),
        CtorInit::FromParam(j) => j < args.len() && out == args[j as int],
    }
}

/// Runs the planned constructor on an argument list: every field is filled
/// per its initializer, in declaration order.
pub fn run_ctor(plan: &CtorPlan, args: &Vec<FieldValue>) -> (out: Vec<FieldValue>)
    requires
        args@.len() == plan.params@.len(),
        ctor_inits_wf(plan.inits@, plan.params@.len() as int),
    ensures
        out@.len() == plan.inits@.len(),
        forall|i: int| 0 <= i < out@.len() ==> #[trigger] ctor_rel(plan.inits@[i], args@, out@[i]),
{
    let n = plan.inits.len();
    let mut out: Vec<FieldValue> = Vec::new();
    let mut i: usize = 0;
    while i < n
        invariant
            i <= n,
            n == plan.inits@.len(),
            args@.len() == plan.params@.len(),
            ctor_inits_wf(plan.inits@, plan.params@.len() as int),
            out@.len() == i,
            forall|j: int| 0 <= j < i ==> #[trigger] ctor_rel(plan.inits@[j], args@, out@[j]),
        decreases n - i,
    {
        let cf = &plan.inits[i];
        let v: FieldValue = match &cf.init {
            CtorInit::FromExpr(e) => FieldValue::ExprOf(e.clone()),
            CtorInit::FromParam(j) => clone_value(&args[*j]),
        };
        out.push(v);
        i += 1;
    }
    out
}

} // verus!
