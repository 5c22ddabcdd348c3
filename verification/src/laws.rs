//! Laws of the engine: properties that relate the generators, their
//! directives and the meaning of their plans, proved once and for all.

use vstd::prelude::*;

use crate::directive::Directive;
use crate::directive::DirectiveError;
use crate::directive::DirectiveErrorKind;
use crate::directive::GenKind;
use crate::directive::ScanOutcome;
use crate::directive::all_ok;
use crate::directive::decides;
use crate::directive::directive_for;
use crate::directive::err_kind;
use crate::directive::first_err;
use crate::directive::illegal;
use crate::directive::parse_spec;
use crate::directive::relevant;
use crate::directive::scan;
use crate::accessors::field_ops;
use crate::accessors::field_ops_of;
use crate::accessors::getter_ops;
use crate::accessors::kept;
use crate::accessors::read_op;
use crate::accessors::setter_ops;
use crate::accessors::setter_ops_of;
use crate::builder::build_field_of;
use crate::builder::build_fields;
use crate::builder::build_rel;
use crate::builder::default_expr_of;
use crate::classify::inner_spec;
use crate::classify::wrapped_spec;
use crate::ctor::count_kept;
use crate::ctor::ctor_kept;
use crate::ctor::ctor_params;
use crate::ctor::lemma_ctor_plan_wf;
use crate::plan::CtorParam;
use crate::plan::RetDesc;
use crate::value::FieldValue;
use crate::schema::AttrItem;
use crate::schema::names_distinct;
use crate::schema::FieldSpec;
use crate::schema::RecordBody;
use crate::schema::RecordSpec;
use crate::schema::shape_ok;
use crate::validate::StructuralErrorKind;
use crate::validate::shape_err;

verus! {

/// Some item of the list is written in a form the generator forbids, so a
/// scan settles on an offending item.
proof fn lemma_scan_offends(items: Seq<AttrItem>, k: GenKind)
    requires
        exists|a: int| 0 <= a < items.len() && illegal(#[trigger] items[a], k),
    ensures
        scan(items, k) is Offending,
    decreases items.len(),
{
    let a = choose|a: int| 0 <= a < items.len() && illegal(#[trigger] items[a], k);
    if !illegal(items[0], k) {
        assert(items.drop_first()[a - 1] == items[a]);
        lemma_scan_offends(items.drop_first(), k);
    }
}

/// No item of the list is written in a forbidden form, so a scan never
/// settles on an offending item.
proof fn lemma_scan_clean(items: Seq<AttrItem>, k: GenKind)
    requires
        forall|a: int| 0 <= a < items.len() ==> !illegal(#[trigger] items[a], k),
    ensures
        !(scan(items, k) is Offending),
    decreases items.len(),
{
    if items.len() > 0 {
        assert(forall|a: int|
            0 <= a < items.drop_first().len() ==> #[trigger] items.drop_first()[a] == items[a + 1]);
        lemma_scan_clean(items.drop_first(), k);
    }
}

/// With no forbidden form present and at least one deciding item, a scan
/// settles on a deciding item.
proof fn lemma_scan_decides(items: Seq<AttrItem>, k: GenKind)
    requires
        forall|a: int| 0 <= a < items.len() ==> !illegal(#[trigger] items[a], k),
        exists|a: int| 0 <= a < items.len() && decides(#[trigger] items[a], k),
    ensures
        scan(items, k) is Deciding,
    decreases items.len(),
{
    lemma_scan_clean(items, k);
    let a = choose|a: int| 0 <= a < items.len() && decides(#[trigger] items[a], k);
    if !decides(items[0], k) {
        assert(forall|b: int|
            0 <= b < items.drop_first().len() ==> #[trigger] items.drop_first()[b] == items[b + 1]);
        assert(items.drop_first()[a - 1] == items[a]);
        lemma_scan_decides(items.drop_first(), k);
    }
}

/// A field that carries a value-bearing `skip` for the getters, setters or
/// fields generator makes the whole generation fail, and every such failure
/// reports `SkipMustNotHaveValue`.
pub proof fn law_value_skip_fails(fs: Seq<FieldSpec>, i: int, a: int, k: GenKind)
    requires
        k is Getters || k is Setters || k is Fields,
        0 <= i < fs.len(),
        0 <= a < fs[i].attrs@.len(),
        relevant(fs[i].attrs@[a], k),
        fs[i].attrs@[a].form is WithValue,
    ensures
        !all_ok(fs, k),
        forall|e: DirectiveError| first_err(fs, k, e) ==> e.kind
            == DirectiveErrorKind::SkipMustNotHaveValue,
{
    assert(illegal(fs[i].attrs@[a], k));
    lemma_scan_offends(fs[i].attrs@, k);
    assert(parse_spec(fs[i], k) is Err);
    assert forall|e: DirectiveError| first_err(fs, k, e) implies e.kind
        == DirectiveErrorKind::SkipMustNotHaveValue by {
        let i2 = choose|i2: int|
            0 <= i2 < fs.len() && #[trigger] parse_spec(fs[i2], k) == Err::<
                Directive,
                DirectiveError,
            >(e) && forall|j: int| 0 <= j < i2 ==> #[trigger] parse_spec(fs[j], k) is Ok;
        assert(e.kind == err_kind(k));
    }
}

/// A field that carries a bare or list-form `skip` for the constructor
/// makes the whole generation fail, and every such failure reports
/// `SkipMustHaveValue`.
pub proof fn law_bare_skip_fails(fs: Seq<FieldSpec>, i: int, a: int)
    requires
        0 <= i < fs.len(),
        0 <= a < fs[i].attrs@.len(),
        relevant(fs[i].attrs@[a], GenKind::Ctor),
        !(fs[i].attrs@[a].form is WithValue),
    ensures
        !all_ok(fs, GenKind::Ctor),
        forall|e: DirectiveError| first_err(fs, GenKind::Ctor, e) ==> e.kind
            == DirectiveErrorKind::SkipMustHaveValue,
{
    assert(illegal(fs[i].attrs@[a], GenKind::Ctor));
    lemma_scan_offends(fs[i].attrs@, GenKind::Ctor);
    assert(parse_spec(fs[i], GenKind::Ctor) is Err);
    assert forall|e: DirectiveError| first_err(fs, GenKind::Ctor, e) implies e.kind
        == DirectiveErrorKind::SkipMustHaveValue by {
        let i2 = choose|i2: int|
            0 <= i2 < fs.len() && #[trigger] parse_spec(fs[i2], GenKind::Ctor) == Err::<
                Directive,
                DirectiveError,
            >(e) && forall|j: int| 0 <= j < i2 ==> #[trigger] parse_spec(fs[j], GenKind::Ctor) is Ok;
        assert(e.kind == err_kind(GenKind::Ctor));
    }
}

/// A field whose `skip` is written only in the legal bare or list form for
/// the getters, setters or fields generator resolves to `Skip` without an
/// error.
pub proof fn law_bare_skip_resolves(fs: Seq<FieldSpec>, i: int, a: int, k: GenKind)
    requires
        k is Getters || k is Setters || k is Fields,
        0 <= i < fs.len(),
        0 <= a < fs[i].attrs@.len(),
        relevant(fs[i].attrs@[a], k),
        !(fs[i].attrs@[a].form is WithValue),
        forall|b: int| 0 <= b < fs[i].attrs@.len() ==> !illegal(#[trigger] fs[i].attrs@[b], k),
    ensures
        parse_spec(fs[i], k) == Ok::<Directive, DirectiveError>(Directive::Skip),
{
    assert(decides(fs[i].attrs@[a], k));
    lemma_scan_decides(fs[i].attrs@, k);
    let it = choose|it: AttrItem| scan(fs[i].attrs@, k) == ScanOutcome::Deciding(it);
    assert(directive_for(it, k) == Directive::Skip);
}

/// How many fields of the list take part in generation for `k`.
pub open spec fn count_kept_acc(fs: Seq<FieldSpec>, k: GenKind) -> int
    decreases fs.len(),
{
    if fs.len() == 0 {
        0
    } else {
        count_kept_acc(fs.drop_last(), k) + if kept(fs.last(), k) {
            1int
        } else {
            0int
        }
    }
}

proof fn lemma_getter_ops_len(fs: Seq<FieldSpec>)
    ensures
        getter_ops(fs).len() == count_kept_acc(fs, GenKind::Getters),
        0 <= count_kept_acc(fs, GenKind::Getters) <= fs.len(),
    decreases fs.len(),
{
    if fs.len() > 0 {
        lemma_getter_ops_len(fs.drop_last());
    }
}

/// The read operation of a kept field stands at the position given by the
/// number of kept fields before it.
proof fn lemma_getter_position(fs: Seq<FieldSpec>, i: int)
    requires
        0 <= i < fs.len(),
        kept(fs[i], GenKind::Getters),
    ensures
        getter_ops(fs).len() == count_kept_acc(fs, GenKind::Getters),
        0 <= count_kept_acc(fs.take(i), GenKind::Getters) < getter_ops(fs).len(),
        getter_ops(fs)[count_kept_acc(fs.take(i), GenKind::Getters)] == read_op(
            fs[i],
            Option::None,
        ),
    decreases fs.len(),
{
    lemma_getter_ops_len(fs);
    lemma_getter_ops_len(fs.drop_last());
    if i == fs.len() - 1 {
        assert(fs.take(i) =~= fs.drop_last());
    } else {
        lemma_getter_position(fs.drop_last(), i);
        assert(fs.drop_last().take(i) =~= fs.take(i));
        assert(fs.drop_last()[i] == fs[i]);
    }
}

/// Every planned read operation comes from a kept field, at the position
/// given by the number of kept fields before it.
proof fn lemma_getter_sources(fs: Seq<FieldSpec>)
    ensures
        forall|j: int|
            #![trigger getter_ops(fs)[j]]
            0 <= j < getter_ops(fs).len() ==> exists|i: int|
                #![auto]
                0 <= i < fs.len() && kept(fs[i], GenKind::Getters) && j == count_kept_acc(
                    fs.take(i),
                    GenKind::Getters,
                ) && getter_ops(fs)[j] == read_op(fs[i], Option::None),
    decreases fs.len(),
{
    if fs.len() > 0 {
        lemma_getter_sources(fs.drop_last());
        lemma_getter_ops_len(fs.drop_last());
        let init = getter_ops(fs.drop_last());
        assert forall|j: int| #![trigger getter_ops(fs)[j]] 0 <= j < getter_ops(fs).len() implies exists|i: int|
            #![auto]
            0 <= i < fs.len() && kept(fs[i], GenKind::Getters) && j == count_kept_acc(
                fs.take(i),
                GenKind::Getters,
            ) && getter_ops(fs)[j] == read_op(fs[i], Option::None) by {
            if j < init.len() {
                let i = choose|i: int|
                    #![auto]
                    0 <= i < fs.drop_last().len() && kept(fs.drop_last()[i], GenKind::Getters) && j
                        == count_kept_acc(fs.drop_last().take(i), GenKind::Getters) && init[j]
                        == read_op(fs.drop_last()[i], Option::None);
                assert(fs.drop_last().take(i) =~= fs.take(i));
                assert(fs.drop_last()[i] == fs[i]);
                assert(getter_ops(fs)[j] == init[j]);
            } else {
                assert(kept(fs.last(), GenKind::Getters));
                assert(fs.take(fs.len() - 1) =~= fs.drop_last());
                assert(fs[fs.len() - 1] == fs.last());
            }
        }
    }
}

/// A plain kept field gets exactly one read operation, returning a
/// reference to its declared type; a wrapper field's one operation returns
/// an optional reference to the inner type.
pub proof fn law_getter_per_field(fs: Seq<FieldSpec>, i: int)
    requires
        names_distinct(fs),
        0 <= i < fs.len(),
        kept(fs[i], GenKind::Getters),
    ensures
        0 <= count_kept_acc(fs.take(i), GenKind::Getters) < getter_ops(fs).len(),
        getter_ops(fs)[count_kept_acc(fs.take(i), GenKind::Getters)] == read_op(
            fs[i],
            Option::None,
        ),
        forall|j: int|
            0 <= j < getter_ops(fs).len() && #[trigger] getter_ops(fs)[j].field@ == fs[i].name@
                ==> j == count_kept_acc(fs.take(i), GenKind::Getters),
        !wrapped_spec(fs[i].ty) ==> read_op(fs[i], Option::None).ret == RetDesc::RefTo(fs[i].ty),
        wrapped_spec(fs[i].ty) ==> read_op(fs[i], Option::None).ret == RetDesc::OptionRefTo(
            inner_spec(fs[i].ty),
        ),
{
    lemma_getter_position(fs, i);
    lemma_getter_sources(fs);
    assert forall|j: int|
        0 <= j < getter_ops(fs).len() && #[trigger] getter_ops(fs)[j].field@
            == fs[i].name@ implies j == count_kept_acc(fs.take(i), GenKind::Getters) by {
        let i2 = choose|i2: int|
            #![auto]
            0 <= i2 < fs.len() && kept(fs[i2], GenKind::Getters) && j == count_kept_acc(
                fs.take(i2),
                GenKind::Getters,
            ) && getter_ops(fs)[j] == read_op(fs[i2], Option::None);
        if i2 != i {
            assert(fs[i2].name@ != fs[i].name@);
        }
    }
}

/// Every planned mutator comes from a kept field and carries its name.
proof fn lemma_setter_sources(fs: Seq<FieldSpec>)
    ensures
        forall|j: int|
            #![trigger setter_ops(fs)[j]]
            0 <= j < setter_ops(fs).len() ==> exists|i: int|
                #![auto]
                0 <= i < fs.len() && kept(fs[i], GenKind::Setters) && setter_ops(fs)[j].field
                    == fs[i].name,
    decreases fs.len(),
{
    if fs.len() > 0 {
        lemma_setter_sources(fs.drop_last());
        let init = setter_ops(fs.drop_last());
        assert forall|j: int| #![trigger setter_ops(fs)[j]] 0 <= j < setter_ops(fs).len() implies exists|i: int|
            #![auto]
            0 <= i < fs.len() && kept(fs[i], GenKind::Setters) && setter_ops(fs)[j].field
                == fs[i].name by {
            if j < init.len() {
                let i = choose|i: int|
                    #![auto]
                    0 <= i < fs.drop_last().len() && kept(fs.drop_last()[i], GenKind::Setters)
                        && init[j].field == fs.drop_last()[i].name;
                assert(fs.drop_last()[i] == fs[i]);
                assert(setter_ops(fs)[j] == init[j]);
            } else {
                assert(kept(fs.last(), GenKind::Setters));
                assert(setter_ops(fs)[j] == setter_ops_of(fs.last())[j - init.len()]);
                assert(fs[fs.len() - 1] == fs.last());
            }
        }
    }
}

/// Every planned fields-generator operation comes from a kept field and
/// carries its name.
proof fn lemma_field_sources(fs: Seq<FieldSpec>)
    ensures
        forall|j: int|
            #![trigger field_ops(fs)[j]]
            0 <= j < field_ops(fs).len() ==> exists|i: int|
                #![auto]
                0 <= i < fs.len() && kept(fs[i], GenKind::Fields) && field_ops(fs)[j].field
                    == fs[i].name,
    decreases fs.len(),
{
    if fs.len() > 0 {
        lemma_field_sources(fs.drop_last());
        let init = field_ops(fs.drop_last());
        assert forall|j: int| #![trigger field_ops(fs)[j]] 0 <= j < field_ops(fs).len() implies exists|i: int|
            #![auto]
            0 <= i < fs.len() && kept(fs[i], GenKind::Fields) && field_ops(fs)[j].field
                == fs[i].name by {
            if j < init.len() {
                let i = choose|i: int|
                    #![auto]
                    0 <= i < fs.drop_last().len() && kept(fs.drop_last()[i], GenKind::Fields)
                        && init[j].field == fs.drop_last()[i].name;
                assert(fs.drop_last()[i] == fs[i]);
                assert(field_ops(fs)[j] == init[j]);
            } else {
                assert(kept(fs.last(), GenKind::Fields));
                assert(field_ops(fs)[j] == field_ops_of(fs.last())[j - init.len()]);
                assert(fs[fs.len() - 1] == fs.last());
            }
        }
    }
}

/// A field that resolved to `Skip` gets no operation from any of the three
/// accessor generators: no planned operation carries its name.
pub proof fn law_skip_omits(fs: Seq<FieldSpec>, i: int)
    requires
        names_distinct(fs),
        0 <= i < fs.len(),
    ensures
        parse_spec(fs[i], GenKind::Getters) == Ok::<Directive, DirectiveError>(Directive::Skip)
            ==> forall|j: int|
            0 <= j < getter_ops(fs).len() ==> #[trigger] getter_ops(fs)[j].field@ != fs[i].name@,
        parse_spec(fs[i], GenKind::Setters) == Ok::<Directive, DirectiveError>(Directive::Skip)
            ==> forall|j: int|
            0 <= j < setter_ops(fs).len() ==> #[trigger] setter_ops(fs)[j].field@ != fs[i].name@,
        parse_spec(fs[i], GenKind::Fields) == Ok::<Directive, DirectiveError>(Directive::Skip)
            ==> forall|j: int|
            0 <= j < field_ops(fs).len() ==> #[trigger] field_ops(fs)[j].field@ != fs[i].name@,
{
    lemma_getter_sources(fs);
    lemma_setter_sources(fs);
    lemma_field_sources(fs);
    if parse_spec(fs[i], GenKind::Getters) == Ok::<Directive, DirectiveError>(Directive::Skip) {
        assert forall|j: int| 0 <= j < getter_ops(fs).len() implies #[trigger] getter_ops(
            fs,
        )[j].field@ != fs[i].name@ by {
            let i2 = choose|i2: int|
                #![auto]
                0 <= i2 < fs.len() && kept(fs[i2], GenKind::Getters) && j == count_kept_acc(
                    fs.take(i2),
                    GenKind::Getters,
                ) && getter_ops(fs)[j] == read_op(fs[i2], Option::None);
            if i2 != i {
                assert(fs[i2].name@ != fs[i].name@);
            }
        }
    }
    if parse_spec(fs[i], GenKind::Setters) == Ok::<Directive, DirectiveError>(Directive::Skip) {
        assert forall|j: int| 0 <= j < setter_ops(fs).len() implies #[trigger] setter_ops(
            fs,
        )[j].field@ != fs[i].name@ by {
            let i2 = choose|i2: int|
                #![auto]
                0 <= i2 < fs.len() && kept(fs[i2], GenKind::Setters) && setter_ops(fs)[j].field
                    == fs[i2].name;
            if i2 != i {
                assert(fs[i2].name@ != fs[i].name@);
            }
        }
    }
    if parse_spec(fs[i], GenKind::Fields) == Ok::<Directive, DirectiveError>(Directive::Skip) {
        assert forall|j: int| 0 <= j < field_ops(fs).len() implies #[trigger] field_ops(
            fs,
        )[j].field@ != fs[i].name@ by {
            let i2 = choose|i2: int|
                #![auto]
                0 <= i2 < fs.len() && kept(fs[i2], GenKind::Fields) && field_ops(fs)[j].field
                    == fs[i2].name;
            if i2 != i {
                assert(fs[i2].name@ != fs[i].name@);
            }
        }
    }
}

/// The builder's resolution entries line up with the fields, one each.
proof fn lemma_build_fields_at(fs: Seq<FieldSpec>)
    ensures
        build_fields(fs).len() == fs.len(),
        forall|i: int| 0 <= i < fs.len() ==> #[trigger] build_fields(fs)[i] == build_field_of(
            fs[i],
        ),
    decreases fs.len(),
{
    if fs.len() > 0 {
        lemma_build_fields_at(fs.drop_last());
        assert forall|i: int| 0 <= i < fs.len() implies #[trigger] build_fields(fs)[i]
            == build_field_of(fs[i]) by {
            if i < fs.len() - 1 {
                assert(fs.drop_last()[i] == fs[i]);
            } else {
                assert(fs[i] == fs.last());
            }
        }
    }
}

/// A builder generated without any `default` directive builds, from the
/// zero-value state, a record in which every field holds its declared
/// type's zero value.
pub proof fn law_build_all_zero(
    fs: Seq<FieldSpec>,
    slots: Seq<Option<FieldValue>>,
    out: Seq<FieldValue>,
)
    requires
        slots.len() == fs.len(),
        out.len() == fs.len(),
        forall|i: int| 0 <= i < fs.len() ==> #[trigger] default_expr_of(fs[i]) is None,
        forall|i: int| 0 <= i < fs.len() ==> #[trigger] slots[i] is None,
        forall|i: int| 0 <= i < fs.len() ==> #[trigger] build_rel(
            build_fields(fs)[i],
            slots[i],
            out[i],
        ),
    ensures
        forall|i: int| 0 <= i < fs.len() ==> #[trigger] out[i] == FieldValue::ZeroOf(fs[i].ty),
{
    lemma_build_fields_at(fs);
    assert forall|i: int| 0 <= i < fs.len() implies #[trigger] out[i] == FieldValue::ZeroOf(
        fs[i].ty,
    ) by {
        assert(build_rel(build_fields(fs)[i], slots[i], out[i]));
        assert(build_fields(fs)[i] == build_field_of(fs[i]));
        assert(default_expr_of(fs[i]) is None);
        assert(slots[i] is None);
    }
}

/// With `default = e` on a field, building with its slot never filled
/// yields the expression's value (under the presence layer for a wrapper
/// field); building with the slot filled yields the supplied value, not the
/// expression's.
pub proof fn law_build_default(
    fs: Seq<FieldSpec>,
    slots: Seq<Option<FieldValue>>,
    out: Seq<FieldValue>,
    i: int,
    e: String,
)
    requires
        slots.len() == fs.len(),
        out.len() == fs.len(),
        0 <= i < fs.len(),
        default_expr_of(fs[i]) == Option::Some(e),
        forall|j: int| 0 <= j < fs.len() ==> #[trigger] build_rel(
            build_fields(fs)[j],
            slots[j],
            out[j],
        ),
    ensures
        slots[i] is None && !wrapped_spec(fs[i].ty) ==> out[i] == FieldValue::ExprOf(e),
        slots[i] is None && wrapped_spec(fs[i].ty) ==> (out[i] matches FieldValue::Wrapped(b) && *b
            == FieldValue::ExprOf(e)),
        slots[i] matches Some(v) ==> ((!wrapped_spec(fs[i].ty) ==> out[i] == v) && (wrapped_spec(
            fs[i].ty,
        ) ==> (out[i] matches FieldValue::Wrapped(b) && *b == v))),
{
    lemma_build_fields_at(fs);
    assert(build_rel(build_fields(fs)[i], slots[i], out[i]));
}

proof fn lemma_count_take_step(fs: Seq<FieldSpec>, j: int)
    requires
        0 <= j < fs.len(),
    ensures
        count_kept(fs.take(j + 1)) == count_kept(fs.take(j)) + if ctor_kept(fs[j]) {
            1int
        } else {
            0int
        },
{
    assert(fs.take(j + 1).drop_last() =~= fs.take(j));
    assert(fs.take(j + 1).last() == fs[j]);
}

proof fn lemma_count_monotone(fs: Seq<FieldSpec>, a: int, b: int)
    requires
        0 <= a <= b <= fs.len(),
    ensures
        count_kept(fs.take(a)) <= count_kept(fs.take(b)),
    decreases b - a,
{
    if a < b {
        lemma_count_take_step(fs, b - 1);
        lemma_count_monotone(fs, a, b - 1);
    }
}

/// A kept field's constructor parameter stands at the position given by the
/// number of kept fields before it, named and typed as declared.
pub proof fn law_ctor_param_position(fs: Seq<FieldSpec>, i: int)
    requires
        0 <= i < fs.len(),
        ctor_kept(fs[i]),
    ensures
        ctor_params(fs).len() == count_kept(fs),
        0 <= count_kept(fs.take(i)) < ctor_params(fs).len(),
        ctor_params(fs)[count_kept(fs.take(i))] == (CtorParam { name: fs[i].name, ty: fs[i].ty }),
    decreases fs.len(),
{
    lemma_ctor_plan_wf(fs);
    lemma_ctor_plan_wf(fs.drop_last());
    if i == fs.len() - 1 {
        assert(fs.take(i) =~= fs.drop_last());
    } else {
        law_ctor_param_position(fs.drop_last(), i);
        assert(fs.drop_last().take(i) =~= fs.take(i));
        assert(fs.drop_last()[i] == fs[i]);
    }
}

/// Constructor parameters keep declaration order: of two kept fields, the
/// earlier one's parameter stands earlier.
pub proof fn law_ctor_param_order(fs: Seq<FieldSpec>, i1: int, i2: int)
    requires
        0 <= i1 < i2 < fs.len(),
        ctor_kept(fs[i1]),
        ctor_kept(fs[i2]),
    ensures
        count_kept(fs.take(i1)) < count_kept(fs.take(i2)),
{
    lemma_count_take_step(fs, i1);
    lemma_count_monotone(fs, i1 + 1, i2);
}

/// Every unworkable shape is rejected with the structural error naming that
/// shape, attributed to the rejecting generator and located at the record.
pub proof fn law_shape_rejected(r: RecordSpec, k: GenKind)
    requires
        !shape_ok(r),
    ensures
        shape_err(r, k).gen == k,
        shape_err(r, k).loc == r.loc,
        r.body is TupleStruct ==> shape_err(r, k).kind == StructuralErrorKind::UnsupportedTupleStruct,
        r.body is UnitStruct ==> shape_err(r, k).kind == StructuralErrorKind::UnsupportedUnitStruct,
        r.body is EnumInput ==> shape_err(r, k).kind == StructuralErrorKind::UnsupportedEnum,
        r.body is UnionInput ==> shape_err(r, k).kind == StructuralErrorKind::UnsupportedUnion,
{
}

} // verus!
