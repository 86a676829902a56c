//! The declaration model: the in-memory form of one annotated record type or
//! tagged union, with the semantic type descriptors the role resolver reads.

use vstd::prelude::*;

verus! {

broadcast use vstd::std_specs::vec::group_vec_axioms;

/// One segment of a path type: an identifier and its argument list.
pub struct Seg {
    pub name: String,
    pub args: Args,
}

/// The arguments attached to a path segment.
pub enum Args {
    Empty,
    Angle(Vec<Ty>),
    Other,
}

/// A semantic type descriptor: a path type, or any other type held as text.
pub enum Ty {
    Path(Vec<Seg>),
    Opaque(String),
}

/// A member of a record or variant: a field name, or a position in a tuple.
pub enum Member {
    Named(String),
    Unnamed(usize),
}

/// A custom display template, carried opaquely.
pub struct Display {
    pub fmt: String,
    pub has_bonus_display: bool,
}

/// The resolved attribute set of a field, variant, record or union.
pub struct Attrs {
    pub from: bool,
    pub source: bool,
    pub backtrace: bool,
    pub from_unwrap: bool,
    pub transparent: bool,
    pub unwrap: bool,
    pub display: Option<Display>,
}

/// One member of a record or variant, with its resolved attributes.
pub struct Field {
    pub member: Member,
    pub ty: Ty,
    pub attrs: Attrs,
}

/// One alternative of a tagged union.
pub struct Variant {
    pub ident: String,
    pub attrs: Attrs,
    pub fields: Vec<Field>,
}

/// Generic parameters and a where-clause, carried opaquely and echoed into
/// every generated implementation unchanged.
pub struct Generics {
    pub params: Vec<String>,
    pub where_clause: Option<String>,
}

/// A record type declaration.
pub struct Struct {
    pub ident: String,
    pub generics: Generics,
    pub attrs: Attrs,
    pub fields: Vec<Field>,
}

/// A tagged-union declaration.
pub struct Enum {
    pub ident: String,
    pub generics: Generics,
    pub attrs: Attrs,
    pub variants: Vec<Variant>,
}

/// One declaration: a record type or a tagged union.
pub enum Input {
    Struct(Struct),
    Enum(Enum),
}

/// The shape invariant a record declaration is assumed to satisfy:
/// a transparent record has exactly one field.
pub open spec fn struct_wf(s: Struct) -> bool {
    s.attrs.transparent ==> s.fields@.len() == 1
}

/// The shape invariant a variant is assumed to satisfy:
/// a transparent variant has exactly one field.
pub open spec fn variant_wf(v: Variant) -> bool {
    v.attrs.transparent ==> v.fields@.len() == 1
}

/// The shape invariant a tagged-union declaration is assumed to satisfy.
pub open spec fn enum_wf(e: Enum) -> bool {
    forall|i: int| 0 <= i < e.variants@.len() ==> #[trigger] variant_wf(e.variants@[i])
}


/// Structural equality of two type descriptors.
pub open spec fn spec_ty_eq(a: Ty, b: Ty) -> bool
    decreases a,
{
    match a {
        Ty::Path(sa) => b is Path && spec_segs_eq(sa@, b->Path_0@),
        Ty::Opaque(ta) => b is Opaque && ta@ == b->Opaque_0@,
    }
}

pub open spec fn spec_segs_eq(sa: Seq<Seg>, sb: Seq<Seg>) -> bool
    decreases sa,
{
    if sa.len() != sb.len() {
        false
    } else if sa.len() == 0 {
        true
    } else {
        spec_seg_eq(sa[0], sb[0]) && spec_segs_eq(
            sa.subrange(1, sa.len() as int),
            sb.subrange(1, sb.len() as int),
        )
    }
}

pub open spec fn spec_seg_eq(a: Seg, b: Seg) -> bool
    decreases a,
{
    a.name@ == b.name@ && spec_args_eq(a.args, b.args)
}

pub open spec fn spec_args_eq(a: Args, b: Args) -> bool
    decreases a,
{
    match a {
        Args::Empty => b is Empty,
        Args::Angle(va) => b is Angle && spec_tys_eq(va@, b->Angle_0@),
        Args::Other => b is Other,
    }
}

pub open spec fn spec_tys_eq(ta: Seq<Ty>, tb: Seq<Ty>) -> bool
    decreases ta,
{
    if ta.len() != tb.len() {
        false
    } else if ta.len() == 0 {
        true
    } else {
        spec_ty_eq(ta[0], tb[0]) && spec_tys_eq(
            ta.subrange(1, ta.len() as int),
            tb.subrange(1, tb.len() as int),
        )
    }
}

/// Segment-list equality holds exactly when the lists have equal length and
/// agree segment by segment.
pub proof fn lemma_segs_eq_pointwise(sa: Seq<Seg>, sb: Seq<Seg>)
    ensures
        spec_segs_eq(sa, sb) <==> (sa.len() == sb.len() && (forall|i: int|
            0 <= i < sa.len() ==> #[trigger] spec_seg_eq(sa[i], sb[i]))),
    decreases sa,
{
    if sa.len() != sb.len() {
        assert(!spec_segs_eq(sa, sb));
        return;
    }
    if sa.len() == 0 {
        assert(spec_segs_eq(sa, sb));
        return;
    }
    if sa.len() == sb.len() && sa.len() > 0 {
        let sa2 = sa.subrange(1, sa.len() as int);
        let sb2 = sb.subrange(1, sb.len() as int);
        lemma_segs_eq_pointwise(sa2, sb2);
        assert(spec_segs_eq(sa, sb) == (spec_seg_eq(sa[0], sb[0]) && spec_segs_eq(sa2, sb2)));
        assert(forall|i: int| 0 <= i < sa2.len() ==> sa2[i] == sa[i + 1] && sb2[i] == sb[i + 1]);
        if sa.len() == sb.len() && (forall|i: int|
            0 <= i < sa.len() ==> #[trigger] spec_seg_eq(sa[i], sb[i])) {
            assert(forall|i: int| 0 <= i < sa2.len() ==> #[trigger] spec_seg_eq(sa2[i], sb2[i]));
        }
        if spec_segs_eq(sa, sb) {
            assert(forall|i: int| 0 <= i < sa.len() ==> #[trigger] spec_seg_eq(sa[i], sb[i])) by {
                assert forall|i: int| 0 <= i < sa.len() implies #[trigger] spec_seg_eq(
                    sa[i],
                    sb[i],
                ) by {
                    if i > 0 {
                        assert(spec_seg_eq(sa2[i - 1], sb2[i - 1]));
                    }
                }
            }
        }
    }
}

/// Type-list equality holds exactly when the lists have equal length and
/// agree element by element.
pub proof fn lemma_tys_eq_pointwise(ta: Seq<Ty>, tb: Seq<Ty>)
    ensures
        spec_tys_eq(ta, tb) <==> (ta.len() == tb.len() && (forall|i: int|
            0 <= i < ta.len() ==> #[trigger] spec_ty_eq(ta[i], tb[i]))),
    decreases ta,
{
    if ta.len() != tb.len() {
        assert(!spec_tys_eq(ta, tb));
        return;
    }
    if ta.len() == 0 {
        assert(spec_tys_eq(ta, tb));
        return;
    }
    if ta.len() == tb.len() && ta.len() > 0 {
        let ta2 = ta.subrange(1, ta.len() as int);
        let tb2 = tb.subrange(1, tb.len() as int);
        lemma_tys_eq_pointwise(ta2, tb2);
        assert(spec_tys_eq(ta, tb) == (spec_ty_eq(ta[0], tb[0]) && spec_tys_eq(ta2, tb2)));
        assert(forall|i: int| 0 <= i < ta2.len() ==> ta2[i] == ta[i + 1] && tb2[i] == tb[i + 1]);
        if ta.len() == tb.len() && (forall|i: int|
            0 <= i < ta.len() ==> #[trigger] spec_ty_eq(ta[i], tb[i])) {
            assert(forall|i: int| 0 <= i < ta2.len() ==> #[trigger] spec_ty_eq(ta2[i], tb2[i]));
        }
        if spec_tys_eq(ta, tb) {
            assert(forall|i: int| 0 <= i < ta.len() ==> #[trigger] spec_ty_eq(ta[i], tb[i])) by {
                assert forall|i: int| 0 <= i < ta.len() implies #[trigger] spec_ty_eq(
                    ta[i],
                    tb[i],
                ) by {
                    if i > 0 {
                        assert(spec_ty_eq(ta2[i - 1], tb2[i - 1]));
                    }
                }
            }
        }
    }
}

/// Compare two identifier strings by their character contents.
pub(crate) fn str_eq(a: &String, b: &String) -> (r: bool)
    ensures
        r == (a@ == b@),
{
    a.eq(b)
}

/// Decide structural equality of two type descriptors.
pub fn ty_eq(a: &Ty, b: &Ty) -> (r: bool)
    ensures
        r == spec_ty_eq(*a, *b),
    decreases *a,
{
    match (a, b) {
        (Ty::Path(sa), Ty::Path(sb)) => {
            if sa.len() != sb.len() {
                proof {
                    lemma_segs_eq_pointwise(sa@, sb@);
                }
                return false;
            }
            let n = sa.len();
            let mut i: usize = 0;
            while i < n
                invariant
                    n == sa@.len(),
                    n == sb@.len(),
                    i <= n,
                    a == Ty::Path(*sa),
                    b == Ty::Path(*sb),
                    forall|j: int| 0 <= j < i ==> #[trigger] spec_seg_eq(sa@[j], sb@[j]),
                decreases n - i,
            {
                proof {
                    assert(decreases_to!(*a => a->Path_0));
                    assert(a->Path_0 == *sa);
                    assert(decreases_to!(*sa => sa@));
                    assert(decreases_to!(sa@ => sa@[i as int]));
                }
                if !seg_eq(&sa[i], &sb[i]) {
                    proof {
                        lemma_segs_eq_pointwise(sa@, sb@);
                    }
                    return false;
                }
                i += 1;
            }
            proof {
                lemma_segs_eq_pointwise(sa@, sb@);
            }
            true
        },
        (Ty::Opaque(ta), Ty::Opaque(tb)) => str_eq(ta, tb),
        _ => false,
    }
}

/// Decide structural equality of two path segments.
pub fn seg_eq(a: &Seg, b: &Seg) -> (r: bool)
    ensures
        r == spec_seg_eq(*a, *b),
    decreases *a,
{
    str_eq(&a.name, &b.name) && args_eq(&a.args, &b.args)
}

/// Decide structural equality of two argument lists.
pub fn args_eq(a: &Args, b: &Args) -> (r: bool)
    ensures
        r == spec_args_eq(*a, *b),
    decreases *a,
{
    match (a, b) {
        (Args::Empty, Args::Empty) => true,
        (Args::Angle(va), Args::Angle(vb)) => {
            if va.len() != vb.len() {
                proof {
                    lemma_tys_eq_pointwise(va@, vb@);
                }
                return false;
            }
            let n = va.len();
            let mut i: usize = 0;
            while i < n
                invariant
                    n == va@.len(),
                    n == vb@.len(),
                    i <= n,
                    a == Args::Angle(*va),
                    b == Args::Angle(*vb),
                    forall|j: int| 0 <= j < i ==> #[trigger] spec_ty_eq(va@[j], vb@[j]),
                decreases n - i,
            {
                proof {
                    assert(decreases_to!(*a => a->Angle_0));
                    assert(a->Angle_0 == *va);
                    assert(decreases_to!(*va => va@));
                    assert(decreases_to!(va@ => va@[i as int]));
                }
                if !ty_eq(&va[i], &vb[i]) {
                    proof {
                        lemma_tys_eq_pointwise(va@, vb@);
                    }
                    return false;
                }
                i += 1;
            }
            proof {
                lemma_tys_eq_pointwise(va@, vb@);
            }
            true
        },
        (Args::Other, Args::Other) => true,
        (Args::Empty, Args::Angle(_)) => false,
        (Args::Empty, Args::Other) => false,
        (Args::Angle(_), Args::Empty) => false,
        (Args::Angle(_), Args::Other) => false,
        (Args::Other, Args::Empty) => false,
        (Args::Other, Args::Angle(_)) => false,
    }
}

} // verus!
