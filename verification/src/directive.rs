//! The directive parser: interprets the small per-field attribute language.
//!
//! Each generator owns one attribute namespace (`builder`, `getters`,
//! `setters`, `fields`, `ctor`) and recognizes one directive name in it:
//! `default` for the builder, `skip` for the others.  Per generator there is
//! exactly one legal syntactic form:
//!
//! * getters / setters / fields: `skip` as a bare marker or list form omits
//!   the field; a value-bearing `skip = expr` is a hard error.
//! * constructor: `skip = expr` supplies the substitute initializer; a bare
//!   marker or list form is a hard error.
//! * builder: `default = expr` supplies the fallback value; other forms of
//!   `default` are ignored, like unknown directive names, as a
//!   forward-compatibility policy.
//!
//! Within one field the parser is error-first: if any attribute item uses an
//! illegal form of the recognized directive, the field's parse fails with the
//! first such item, even when a legal item precedes it.  Otherwise the first
//! legal directive item decides.

use vstd::prelude::*;

use crate::schema::AttrItem;
use crate::schema::FieldSpec;
use crate::schema::MetaForm;
use crate::schema::SrcLoc;

verus! {

/// The four independent generators (setters and fields share their
/// namespace handling but remain distinct kinds).
#[derive(Clone, Copy, Debug, PartialEq, Eq)]
pub enum GenKind {
    Builder,
    Getters,
    Setters,
    Fields,
    Ctor,
}

/// A resolved per-field directive for one generator.
#[derive(Debug, PartialEq, Eq)]
pub enum Directive {
    /// No directive present: the generator applies its default policy.
    Absent,
    /// Omit the field from the generated accessors (getters/setters/fields).
    Skip,
    /// Omit the field from the constructor's parameters and initialize it
    /// with the verbatim expression instead (constructor only).
    SkipWithValue(String),
    /// When the builder slot was never filled, initialize the field with the
    /// verbatim expression instead of the type's zero value (builder only).
    DefaultValue(String),
}

/// Why a directive failed to parse.
#[derive(Clone, Copy, Debug, PartialEq, Eq)]
pub enum DirectiveErrorKind {
    /// A getters/setters/fields `skip` carried a value.
    SkipMustNotHaveValue,
    /// A constructor `skip` carried no value.
    SkipMustHaveValue,
    /// The attribute text did not tokenize into any of the three forms.
    /// The engine never produces this kind itself: tokenization happens at
    /// the front end, which reports its failures under this kind.
    MalformedAttributeSyntax,
}

/// A directive diagnostic: what went wrong, on which field, and where.
#[derive(Debug, PartialEq, Eq)]
pub struct DirectiveError {
    pub kind: DirectiveErrorKind,
    pub field: String,
    pub loc: SrcLoc,
}

/// The fixed diagnostic text for a misused directive.
pub open spec fn directive_message(kind: DirectiveErrorKind) -> Seq<char> {
    match kind {
        DirectiveErrorKind::SkipMustNotHaveValue => "`skip` cannot carry a value here"@,
        DirectiveErrorKind::SkipMustHaveValue => "`skip` must carry a value: the substitute initializer of the skipped field"@,
        DirectiveErrorKind::MalformedAttributeSyntax => "attribute does not tokenize into a recognized form"@,
    }
}

impl DirectiveError {
    /// The fixed human-readable message for this diagnostic.
    pub fn message(&self) -> (m: &'static str)
        ensures
            m@ == directive_message(self.kind),
    {
        match self.kind {
            DirectiveErrorKind::SkipMustNotHaveValue => "`skip` cannot carry a value here",
            DirectiveErrorKind::SkipMustHaveValue => "`skip` must carry a value: the substitute initializer of the skipped field",
            DirectiveErrorKind::MalformedAttributeSyntax => "attribute does not tokenize into a recognized form",
        }
    }
}

/// The attribute namespace a generator owns.
pub open spec fn ns_of(k: GenKind) -> Seq<char> {
    match k {
        GenKind::Builder => "builder"@,
        GenKind::Getters => "getters"@,
        GenKind::Setters => "setters"@,
        GenKind::Fields => "fields"@,
        GenKind::Ctor => "ctor"@,
    }
}

/// The one directive name a generator recognizes in its namespace.
pub open spec fn dname_of(k: GenKind) -> Seq<char> {
    match k {
        GenKind::Builder => "default"@,
        _ => "skip"@,
    }
}

/// An attribute item concerns generator `k` when both its namespace and its
/// directive name are the ones `k` recognizes.
pub open spec fn relevant(it: AttrItem, k: GenKind) -> bool {
    it.namespace@ == ns_of(k) && it.name@ == dname_of(k)
}

/// A relevant item written in the form the generator forbids.
pub open spec fn illegal(it: AttrItem, k: GenKind) -> bool {
    relevant(it, k) && match k {
        GenKind::Builder => false,
        GenKind::Ctor => !(it.form is WithValue),
        _ => it.form is WithValue,
    }
}

/// A relevant, legal item that resolves to a directive.
pub open spec fn decides(it: AttrItem, k: GenKind) -> bool {
    relevant(it, k) && !illegal(it, k) && match k {
        GenKind::Builder => it.form is WithValue,
        _ => true,
    }
}

/// What a field-level scan of the attribute items settles on.
#[derive(Debug, PartialEq, Eq)]
pub enum ScanOutcome {
    /// No recognized directive item at all.
    NoDirective,
    /// The first illegally formed item (error-first: it wins over any legal
    /// item, wherever that stands).
    Offending(AttrItem),
    /// The first deciding item, when no item is illegal.
    Deciding(AttrItem),
}

/// Scans the attribute items in source order: the first illegal item wins;
/// otherwise the first deciding item; otherwise nothing.
pub open spec fn scan(items: Seq<AttrItem>, k: GenKind) -> ScanOutcome
    decreases items.len(),
{
    if items.len() == 0 {
        ScanOutcome::NoDirective
    } else {
        let head = items[0];
        let rest = scan(items.drop_first(), k);
        if illegal(head, k) {
            ScanOutcome::Offending(head)
        } else if rest is Offending {
            rest
        } else if decides(head, k) {
            ScanOutcome::Deciding(head)
        } else {
            rest
        }
    }
}

/// The error kind an illegal form produces for generator `k`.
pub open spec fn err_kind(k: GenKind) -> DirectiveErrorKind {
    match k {
        GenKind::Ctor => DirectiveErrorKind::SkipMustHaveValue,
        _ => DirectiveErrorKind::SkipMustNotHaveValue,
    }
}

/// The verbatim expression a name-value item carries.
pub open spec fn expr_of(it: AttrItem) -> String
    recommends
        it.form is WithValue,
{
    match it.form {
        MetaForm::WithValue(e) => e,
        _ => arbitrary(),
    }
}

/// The directive a deciding item resolves to for generator `k`.
pub open spec fn directive_for(it: AttrItem, k: GenKind) -> Directive {
    match k {
        GenKind::Builder => Directive::DefaultValue(expr_of(it)),
        GenKind::Ctor => Directive::SkipWithValue(expr_of(it)),
        _ => Directive::Skip,
    }
}

/// The exact result of parsing field `f`'s directive for generator `k`.
pub open spec fn parse_spec(f: FieldSpec, k: GenKind) -> Result<Directive, DirectiveError> {
    match scan(f.attrs@, k) {
        ScanOutcome::NoDirective => Ok(Directive::Absent),
        ScanOutcome::Offending(it) => Err(
            DirectiveError { kind: err_kind(k), field: f.name, loc: it.loc },
        ),
        ScanOutcome::Deciding(it) => Ok(directive_for(it, k)),
    }
}

/// Whether an attribute item's namespace is the one generator `k` owns.
fn ns_matches(it: &AttrItem, k: GenKind) -> (b: bool)
    ensures
        b == (it.namespace@ == ns_of(k)),
{
    let lit: &str = match k {
        GenKind::Builder => "builder",
        GenKind::Getters => "getters",
        GenKind::Setters => "setters",
        GenKind::Fields => "fields",
        GenKind::Ctor => "ctor",
    };
    it.namespace == lit.to_owned()
}

/// Whether an attribute item's directive name is the one generator `k`
/// recognizes.
fn dname_matches(it: &AttrItem, k: GenKind) -> (b: bool)
    ensures
        b == (it.name@ == dname_of(k)),
{
    let lit: &str = match k {
        GenKind::Builder => "default",
        _ => "skip",
    };
    it.name == lit.to_owned()
}

/// Whether `it` is an illegally formed directive item for `k`.
fn is_illegal(it: &AttrItem, k: GenKind) -> (b: bool)
    ensures
        b == illegal(*it, k),
{
    let with_value = match &it.form {
        MetaForm::WithValue(_) => true,
        _ => false,
    };
    ns_matches(it, k) && dname_matches(it, k) && match k {
        GenKind::Builder => false,
        GenKind::Ctor => !with_value,
        _ => with_value,
    }
}

/// Whether `it` is a deciding directive item for `k`.
fn is_deciding(it: &AttrItem, k: GenKind) -> (b: bool)
    ensures
        b == decides(*it, k),
{
    let with_value = match &it.form {
        MetaForm::WithValue(_) => true,
        _ => false,
    };
    ns_matches(it, k) && dname_matches(it, k) && match k {
        GenKind::Builder => with_value,
        GenKind::Ctor => with_value,
        _ => !with_value,
    }
}

/// A scan only ever settles on an item of the right kind: an offending item
/// is illegal, a deciding item decides.
pub proof fn lemma_scan_settles(items: Seq<AttrItem>, k: GenKind)
    ensures
        scan(items, k) matches ScanOutcome::Offending(it) ==> illegal(it, k),
        scan(items, k) matches ScanOutcome::Deciding(it) ==> decides(it, k),
    decreases items.len(),
{
    if items.len() > 0 {
        lemma_scan_settles(items.drop_first(), k);
    }
}

/// Parses the directive generator `k` sees on field `f`.
pub fn parse_directives(f: &FieldSpec, k: GenKind) -> (res: Result<Directive, DirectiveError>)
    ensures
        res == parse_spec(*f, k),
{
    let n = f.attrs.len();
    let mut i = n;
    let mut bad: Option<usize> = Option::None;
    let mut dec: Option<usize> = Option::None;
    while i > 0
        invariant
            i <= n,
            n == f.attrs@.len(),
            bad matches Some(bi) ==> i <= bi < n && scan(f.attrs@.skip(i as int), k)
                == ScanOutcome::Offending(f.attrs@[bi as int]),
            bad is None ==> (dec matches Some(di) ==> i <= di < n && scan(
                f.attrs@.skip(i as int),
                k,
            ) == ScanOutcome::Deciding(f.attrs@[di as int])),
            bad is None && dec is None ==> scan(f.attrs@.skip(i as int), k)
                == ScanOutcome::NoDirective,
        decreases i,
    {
        let h = i - 1;
        let it = &f.attrs[h];
        proof {
            assert(f.attrs@.skip(h as int).drop_first() =~= f.attrs@.skip(i as int));
            assert(f.attrs@.skip(h as int)[0] == f.attrs@[h as int]);
        }
        if is_illegal(it, k) {
            bad = Option::Some(h);
            dec = Option::None;
        } else if bad.is_none() && is_deciding(it, k) {
            dec = Option::Some(h);
        }
        i = h;
    }
    proof {
        assert(f.attrs@.skip(0) =~= f.attrs@);
        lemma_scan_settles(f.attrs@, k);
    }
    match bad {
        Option::Some(bi) => {
            let kind = match k {
                GenKind::Ctor => DirectiveErrorKind::SkipMustHaveValue,
                _ => DirectiveErrorKind::SkipMustNotHaveValue,
            };
            Err(DirectiveError { kind, field: f.name.clone(), loc: f.attrs[bi].loc })
        },
        Option::None => match dec {
            Option::Some(di) => {
                let it = &f.attrs[di];
                match k {
                    GenKind::Getters | GenKind::Setters | GenKind::Fields => Ok(Directive::Skip),
                    GenKind::Builder => match &it.form {
                        MetaForm::WithValue(e) => Ok(Directive::DefaultValue(e.clone())),
                        _ => {
                            assert(false);
                            Ok(Directive::Absent)
                        },
                    },
                    GenKind::Ctor => match &it.form {
                        MetaForm::WithValue(e) => Ok(Directive::SkipWithValue(e.clone())),
                        _ => {
                            assert(false);
                            Ok(Directive::Absent)
                        },
                    },
                }
            },
            Option::None => Ok(Directive::Absent),
        },
    }
}

/// All of a record's fields parse cleanly for generator `k`.
pub open spec fn all_ok(fields: Seq<FieldSpec>, k: GenKind) -> bool {
    forall|i: int| 0 <= i < fields.len() ==> #[trigger] parse_spec(fields[i], k) is Ok
}

/// The first field whose directive fails to parse produced exactly `e`, and
/// every field before it parses cleanly.
pub open spec fn first_err(fields: Seq<FieldSpec>, k: GenKind, e: DirectiveError) -> bool {
    exists|i: int|
        0 <= i < fields.len() && #[trigger] parse_spec(fields[i], k) == Err::<
            Directive,
            DirectiveError,
        >(e) && forall|j: int| 0 <= j < i ==> #[trigger] parse_spec(fields[j], k) is Ok
}

/// Parses every field's directive for generator `k`, in declaration order,
/// stopping at the first field that fails (all-or-nothing policy, held
/// consistently by all four generators).
pub fn parse_all(fields: &Vec<FieldSpec>, k: GenKind) -> (res: Result<Vec<Directive>, DirectiveError>)
    ensures
        match res {
            Ok(ds) => all_ok(fields@, k) && ds@.len() == fields@.len() && forall|i: int|
                0 <= i < fields@.len() ==> #[trigger] parse_spec(fields@[i], k) == Ok::<
                    Directive,
                    DirectiveError,
                >(ds@[i]),
            Err(e) => !all_ok(fields@, k) && first_err(fields@, k, e) && e.kind == err_kind(k),
        },
{
    let n = fields.len();
    let mut ds: Vec<Directive> = Vec::new();
    let mut i: usize = 0;
    while i < n
        invariant
            i <= n,
            n == fields@.len(),
            ds@.len() == i,
            forall|j: int| 0 <= j < i ==> #[trigger] parse_spec(fields@[j], k) == Ok::<
                Directive,
                DirectiveError,
            >(ds@[j]),
        decreases n - i,
    {
        match parse_directives(&fields[i], k) {
            Ok(d) => {
                ds.push(d);
            },
            Err(e) => {
                proof {
                    assert(parse_spec(fields@[i as int], k) == Err::<Directive, DirectiveError>(e));
                    assert(first_err(fields@, k, e));
                }
                return Err(e);
            },
        }
        i += 1;
    }
    Ok(ds)
}

} // verus!
