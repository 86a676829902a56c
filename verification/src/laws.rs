//! The laws of the library: general properties of the role resolver, the
//! synthesizer and the evaluation semantics, each stated for every input it
//! speaks of and proved.

use vstd::prelude::*;

use crate::ast::{Enum, Field, Struct, Ty, Variant, struct_wf};
use crate::eval::{
    DisplayOut, ErrorVal, FieldVal, Promoted, UnionVal, case_matches, spec_error_source,
    spec_eval_backtrace_opt, spec_eval_display, spec_eval_source_opt, spec_find_sibling,
    spec_local_bt, spec_promote, spec_source_bt,
};
use crate::expand::{
    BacktraceBody, DisplayBody, Promotion, RewrapCase, SourceBody, spec_struct_impl,
};
use crate::prop::{
    named_source_pred,
    is_source_marked, lemma_first_match, source_marked_pred, spec_backtrace_field,
    spec_from_field, spec_from_unwrap_field, spec_source_field, spec_type_is_option,
};

verus! {

/// Role resolution is deterministic: the resolved role assignment is a pure
/// function of the field list, so resolving the same fields again yields
/// identical assignments.
pub proof fn lemma_role_resolution_deterministic(f1: Seq<Field>, f2: Seq<Field>)
    requires
        f1 == f2,
    ensures
        spec_from_field(f1) == spec_from_field(f2),
        spec_source_field(f1) == spec_source_field(f2),
        spec_backtrace_field(f1) == spec_backtrace_field(f2),
        spec_from_unwrap_field(f1) == spec_from_unwrap_field(f2),
{
}

/// First-match tie-break: when two fields both carry a causal-source mark,
/// the resolver picks the earlier one — never the later.
pub proof fn lemma_first_match_tie_break(fields: Seq<Field>, a: int, b: int)
    requires
        0 <= a < b < fields.len(),
        is_source_marked(fields[a]),
        is_source_marked(fields[b]),
    ensures
        spec_source_field(fields) is Some,
        spec_source_field(fields)->0 <= a,
        spec_source_field(fields) != Some(b),
{
    lemma_first_match(fields, source_marked_pred());
}

/// Transparent delegation: a transparent single-field record delegates its
/// causal-source accessor and its display formatter to the sole field's own
/// implementations — for every value of that field.
pub proof fn lemma_transparent_delegation(s: Struct, vals: Seq<FieldVal>, e: ErrorVal)
    requires
        struct_wf(s),
        s.attrs.transparent,
        vals.len() == 1,
        vals[0] == FieldVal::Plain(e),
    ensures
        spec_struct_impl(s).source_method == Some(SourceBody::Transparent { field_idx: 0 }),
        spec_eval_source_opt(spec_struct_impl(s).source_method, vals) == spec_error_source(e),
        spec_struct_impl(s).display_impl == Some(DisplayBody::Transparent { field_idx: 0 }),
        spec_eval_display(DisplayBody::Transparent { field_idx: 0 }, vals) == Some(
            DisplayOut::Delegated(e.display),
        ),
{
}

/// Backtrace preference: with both a causal-source field and a backtrace
/// field resolved, the synthesized accessor returns the causal source's own
/// backtrace when it is present and falls back to the local backtrace field
/// only when it is absent — for every combination of nullable and
/// non-nullable fields.
pub proof fn lemma_backtrace_preference(s: Struct, vals: Seq<FieldVal>, si: usize, bi: usize)
    requires
        !s.attrs.transparent,
        spec_source_field(s.fields@) == Some(si as int),
        spec_backtrace_field(s.fields@) == Some(bi as int),
    ensures
        ({
            let sn = spec_type_is_option(s.fields@[si as int].ty);
            let bn = spec_type_is_option(s.fields@[bi as int].ty);
            let m = spec_struct_impl(s).backtrace_method;
            &&& m == Some(
                BacktraceBody::Combined {
                    source_idx: si,
                    source_nullable: sn,
                    backtrace_idx: bi,
                    backtrace_nullable: bn,
                },
            )
            &&& (spec_source_bt(vals, si, sn) is Some ==> spec_eval_backtrace_opt(m, vals)
                == spec_source_bt(vals, si, sn))
            &&& (spec_source_bt(vals, si, sn) is None ==> spec_eval_backtrace_opt(m, vals)
                == spec_local_bt(vals, bi, bn))
        }),
{
}

/// Conversion round-trip: for a record whose conversion-source field is its
/// causal source, converting a value and reading it back through the
/// synthesized causal-source accessor yields that same value, and the
/// backtrace accessor finds a backtrace immediately after conversion.
pub proof fn lemma_conversion_round_trip(
    s: Struct,
    vals: Seq<FieldVal>,
    t: ErrorVal,
    fresh: u64,
    fi: usize,
)
    requires
        !s.attrs.transparent,
        spec_from_field(s.fields@) == Some(fi as int),
        spec_source_field(s.fields@) == Some(fi as int),
        !spec_type_is_option(s.fields@[fi as int].ty),
        vals.len() == s.fields@.len(),
        vals[fi as int] == FieldVal::Plain(t),
        match spec_backtrace_field(s.fields@) {
            Some(bi) => 0 <= bi < vals.len() && bi <= usize::MAX && vals[bi]
                == if spec_type_is_option(s.fields@[bi].ty) {
                FieldVal::NullableBt(Some(fresh))
            } else {
                FieldVal::Bt(fresh)
            },
            None => true,
        },
    ensures
        spec_eval_source_opt(spec_struct_impl(s).source_method, vals) == Some(t),
        spec_backtrace_field(s.fields@) is Some ==> spec_eval_backtrace_opt(
            spec_struct_impl(s).backtrace_method,
            vals,
        ) is Some,
{
    lemma_first_match(s.fields@, source_marked_pred());
    lemma_first_match(s.fields@, named_source_pred());
}

/// The promotion dispatch table picks the first matching case: every
/// earlier case fails to match, and when the result is absent every case
/// does.
pub proof fn lemma_find_sibling_first(cases: Seq<RewrapCase>, variants: Seq<Variant>, t: Ty)
    ensures
        match spec_find_sibling(cases, variants, t) {
            Some(c) => exists|k: int|
                0 <= k < cases.len() && cases[k] == c && case_matches(c, variants, t) && (forall|
                    j: int,
                |
                    0 <= j < k ==> !case_matches(#[trigger] cases[j], variants, t)),
            None => forall|j: int|
                0 <= j < cases.len() ==> !case_matches(#[trigger] cases[j], variants, t),
        },
    decreases cases.len(),
{
    if cases.len() > 0 && !case_matches(cases[0], variants, t) {
        let tail = cases.subrange(1, cases.len() as int);
        lemma_find_sibling_first(tail, variants, t);
        assert(forall|j: int| 0 <= j < tail.len() ==> #[trigger] tail[j] == cases[j + 1]);
        match spec_find_sibling(tail, variants, t) {
            Some(c) => {
                assert(spec_find_sibling(cases, variants, t) == Some(c));
                let k = choose|k: int|
                    0 <= k < tail.len() && tail[k] == c && case_matches(c, variants, t) && (forall|
                        j: int,
                    |
                        0 <= j < k ==> !case_matches(#[trigger] tail[j], variants, t));
                assert(cases[k + 1] == c);
                assert forall|j: int| 0 <= j < k + 1 implies !case_matches(
                    #[trigger] cases[j],
                    variants,
                    t,
                ) by {
                    if j > 0 {
                        assert(tail[j - 1] == cases[j]);
                        assert(!case_matches(tail[j - 1], variants, t));
                    }
                }
                assert(0 <= k + 1 < cases.len() && cases[k + 1] == c && case_matches(
                    c,
                    variants,
                    t,
                ) && (forall|j: int| 0 <= j < k + 1 ==> !case_matches(#[trigger] cases[j], variants, t)));
            },
            None => {
                assert(spec_find_sibling(cases, variants, t) is None);
                assert forall|j: int|
                    0 <= j < cases.len() implies !case_matches(
                    #[trigger] cases[j],
                    variants,
                    t,
                ) by {
                    if j > 0 {
                        assert(!case_matches(tail[j - 1], variants, t));
                    }
                }
            },
        }
    }
}

/// Promotion totality: promoting any inner-union value into the outer union
/// either re-wraps the payload into the first sibling variant that wraps
/// the same payload type, or wraps the whole inner value as the designated
/// promotion-source variant — the dispatch is total, and on neither path is
/// the promoted value dropped.
pub proof fn lemma_promotion_totality(outer: Enum, p: Promotion, inner: UnionVal)
    ensures
        match spec_find_sibling(p.cases@, outer.variants@, inner.payload_ty) {
            Some(c) => spec_promote(outer, p, inner) == (Promoted::Sibling {
                variant_idx: c.variant_idx,
                payload: inner.payload,
            }) && exists|k: int|
                0 <= k < p.cases@.len() && p.cases@[k] == c && case_matches(
                    c,
                    outer.variants@,
                    inner.payload_ty,
                ) && (forall|j: int|
                    0 <= j < k ==> !case_matches(
                        #[trigger] p.cases@[j],
                        outer.variants@,
                        inner.payload_ty,
                    )),
            None => spec_promote(outer, p, inner) == (Promoted::Wrapped {
                variant_idx: p.promo_variant_idx,
                inner,
            }) && (forall|j: int|
                0 <= j < p.cases@.len() ==> !case_matches(
                    #[trigger] p.cases@[j],
                    outer.variants@,
                    inner.payload_ty,
                )),
        },
{
    lemma_find_sibling_first(p.cases@, outer.variants@, inner.payload_ty);
}

} // verus!
