//! An evaluation semantics for the synthesized implementations: what the
//! generated accessors return, on abstract values, for any resolved
//! declaration. The laws of the crate are stated and proved against these
//! functions.

use vstd::prelude::*;

use crate::ast::{Enum, Ty};
use crate::ast::{spec_ty_eq, ty_eq};
use crate::expand::{
    BacktraceBody, DisplayArm, DisplayBody, Initializer, Promotion, RewrapCase, SourceBody,
};

verus! {

broadcast use vstd::std_specs::vec::group_vec_axioms;

/// An abstract value of a type implementing the error interface: its own
/// causal source, its own captured backtrace, and an abstract display text.
/// Backtraces and display texts are identified by opaque tokens.
pub struct ErrorVal {
    pub source: Option<Box<ErrorVal>>,
    pub backtrace: Option<u64>,
    pub display: u64,
}

/// The value one field of a record or variant holds: an error value, a
/// nullable error value, a backtrace token, a nullable backtrace token, or
/// any other value identified by its display token.
pub enum FieldVal {
    Plain(ErrorVal),
    Nullable(Option<ErrorVal>),
    Bt(u64),
    NullableBt(Option<u64>),
    Other(u64),
}

/// What the error interface's causal-source accessor of an error value
/// itself returns.
pub open spec fn spec_error_source(e: ErrorVal) -> Option<ErrorVal> {
    match e.source {
        Some(b) => Some(*b),
        None => None,
    }
}

/// What a synthesized causal-source body returns on the given field values.
pub open spec fn spec_eval_source(body: SourceBody, vals: Seq<FieldVal>) -> Option<ErrorVal> {
    match body {
        SourceBody::Transparent { field_idx } => if field_idx < vals.len() {
            match vals[field_idx as int] {
                FieldVal::Plain(e) => spec_error_source(e),
                _ => None,
            }
        } else {
            None
        },
        SourceBody::FromField { field_idx, nullable } => if field_idx < vals.len() {
            if nullable {
                match vals[field_idx as int] {
                    FieldVal::Nullable(Some(e)) => Some(e),
                    _ => None,
                }
            } else {
                match vals[field_idx as int] {
                    FieldVal::Plain(e) => Some(e),
                    _ => None,
                }
            }
        } else {
            None
        },
    }
}

/// What a causal-source accessor returns when the body may be omitted: an
/// omitted accessor yields the interface default, no source.
pub open spec fn spec_eval_source_opt(body: Option<SourceBody>, vals: Seq<FieldVal>) -> Option<
    ErrorVal,
> {
    match body {
        Some(b) => spec_eval_source(b, vals),
        None => None,
    }
}

/// The backtrace obtained through the causal-source field, with the
/// null-check rule: an absent causal source yields no backtrace.
pub open spec fn spec_source_bt(vals: Seq<FieldVal>, idx: usize, nullable: bool) -> Option<u64> {
    if idx < vals.len() {
        if nullable {
            match vals[idx as int] {
                FieldVal::Nullable(Some(e)) => e.backtrace,
                _ => None,
            }
        } else {
            match vals[idx as int] {
                FieldVal::Plain(e) => e.backtrace,
                _ => None,
            }
        }
    } else {
        None
    }
}

/// The backtrace held by the local backtrace field, null-checked when
/// nullable.
pub open spec fn spec_local_bt(vals: Seq<FieldVal>, idx: usize, nullable: bool) -> Option<u64> {
    if idx < vals.len() {
        if nullable {
            match vals[idx as int] {
                FieldVal::NullableBt(o) => o,
                _ => None,
            }
        } else {
            match vals[idx as int] {
                FieldVal::Bt(t) => Some(t),
                _ => None,
            }
        }
    } else {
        None
    }
}

/// What a synthesized backtrace body returns: the causal source's own
/// backtrace when present, else the local backtrace field.
pub open spec fn spec_eval_backtrace(body: BacktraceBody, vals: Seq<FieldVal>) -> Option<u64> {
    match body {
        BacktraceBody::Combined { source_idx, source_nullable, backtrace_idx, backtrace_nullable } => match spec_source_bt(
            vals,
            source_idx,
            source_nullable,
        ) {
            Some(t) => Some(t),
            None => spec_local_bt(vals, backtrace_idx, backtrace_nullable),
        },
        BacktraceBody::Local { backtrace_idx, nullable } => spec_local_bt(
            vals,
            backtrace_idx,
            nullable,
        ),
    }
}

/// What a backtrace accessor returns when the body may be omitted.
pub open spec fn spec_eval_backtrace_opt(body: Option<BacktraceBody>, vals: Seq<FieldVal>) -> Option<
    u64,
> {
    match body {
        Some(b) => spec_eval_backtrace(b, vals),
        None => None,
    }
}

/// What a synthesized display body produces.
pub enum DisplayOut {
    /// The display text of the field delegated to, by its token.
    Delegated(u64),
    /// The custom template, evaluated by the host formatting machinery.
    Templated,
}

/// The display text a single field contributes when formatted directly.
pub open spec fn spec_field_display(v: FieldVal) -> Option<u64> {
    match v {
        FieldVal::Plain(e) => Some(e.display),
        FieldVal::Other(t) => Some(t),
        _ => None,
    }
}

/// What a synthesized record display body produces on the given field
/// values.
pub open spec fn spec_eval_display(body: DisplayBody, vals: Seq<FieldVal>) -> Option<DisplayOut> {
    match body {
        DisplayBody::Transparent { field_idx } => if field_idx < vals.len() {
            match spec_field_display(vals[field_idx as int]) {
                Some(t) => Some(DisplayOut::Delegated(t)),
                None => None,
            }
        } else {
            None
        },
        DisplayBody::Template { fmt, has_bonus_display } => Some(DisplayOut::Templated),
    }
}

/// What a synthesized union display arm produces on the given field values.
pub open spec fn spec_eval_display_arm(arm: DisplayArm, vals: Seq<FieldVal>) -> Option<DisplayOut> {
    match arm {
        DisplayArm::SoleField { field_idx } => if field_idx < vals.len() {
            match spec_field_display(vals[field_idx as int]) {
                Some(t) => Some(DisplayOut::Delegated(t)),
                None => None,
            }
        } else {
            None
        },
        DisplayArm::Template { fmt, has_bonus_display } => Some(DisplayOut::Templated),
    }
}

/// Evaluate a causal-source accessor on the given field values.
pub fn eval_source<'a>(body: &Option<SourceBody>, vals: &'a Vec<FieldVal>) -> (r: Option<
    &'a ErrorVal,
>)
    ensures
        match r {
            Some(e) => spec_eval_source_opt(*body, vals@) == Some(*e),
            None => spec_eval_source_opt(*body, vals@) is None,
        },
{
    match body {
        None => None,
        Some(SourceBody::Transparent { field_idx }) => {
            if *field_idx >= vals.len() {
                return None;
            }
            match &vals[*field_idx] {
                FieldVal::Plain(e) => match &e.source {
                    Some(b) => Some(&**b),
                    None => None,
                },
                _ => None,
            }
        },
        Some(SourceBody::FromField { field_idx, nullable }) => {
            if *field_idx >= vals.len() {
                return None;
            }
            match &vals[*field_idx] {
                FieldVal::Plain(e) => if *nullable {
                    None
                } else {
                    Some(e)
                },
                FieldVal::Nullable(o) => if *nullable {
                    match o {
                        Some(e) => Some(e),
                        None => None,
                    }
                } else {
                    None
                },
                _ => None,
            }
        },
    }
}

/// Evaluate a backtrace accessor on the given field values.
pub fn eval_backtrace(body: &Option<BacktraceBody>, vals: &Vec<FieldVal>) -> (r: Option<u64>)
    ensures
        r == spec_eval_backtrace_opt(*body, vals@),
{
    let b = match body {
        None => { return None; },
        Some(b) => b,
    };
    match b {
        BacktraceBody::Combined { source_idx, source_nullable, backtrace_idx, backtrace_nullable } => {
            let source_bt = field_source_bt(vals, *source_idx, *source_nullable);
            match source_bt {
                Some(t) => Some(t),
                None => field_local_bt(vals, *backtrace_idx, *backtrace_nullable),
            }
        },
        BacktraceBody::Local { backtrace_idx, nullable } => field_local_bt(
            vals,
            *backtrace_idx,
            *nullable,
        ),
    }
}

/// Read the causal source's own backtrace out of the field values.
fn field_source_bt(vals: &Vec<FieldVal>, idx: usize, nullable: bool) -> (r: Option<u64>)
    ensures
        r == spec_source_bt(vals@, idx, nullable),
{
    if idx >= vals.len() {
        return None;
    }
    match &vals[idx] {
        FieldVal::Plain(e) => if nullable {
            None
        } else {
            e.backtrace
        },
        FieldVal::Nullable(o) => if nullable {
            match o {
                Some(e) => e.backtrace,
                None => None,
            }
        } else {
            None
        },
        _ => None,
    }
}

/// Read the local backtrace field out of the field values.
fn field_local_bt(vals: &Vec<FieldVal>, idx: usize, nullable: bool) -> (r: Option<u64>)
    ensures
        r == spec_local_bt(vals@, idx, nullable),
{
    if idx >= vals.len() {
        return None;
    }
    match &vals[idx] {
        FieldVal::Bt(t) => if nullable {
            None
        } else {
            Some(*t)
        },
        FieldVal::NullableBt(o) => if nullable {
            *o
        } else {
            None
        },
        _ => None,
    }
}

/// Evaluate a record display body on the given field values.
pub fn eval_display(body: &DisplayBody, vals: &Vec<FieldVal>) -> (r: Option<DisplayOut>)
    ensures
        r == spec_eval_display(*body, vals@),
{
    match body {
        DisplayBody::Transparent { field_idx } => {
            if *field_idx >= vals.len() {
                return None;
            }
            match &vals[*field_idx] {
                FieldVal::Plain(e) => Some(DisplayOut::Delegated(e.display)),
                FieldVal::Other(t) => Some(DisplayOut::Delegated(*t)),
                _ => None,
            }
        },
        DisplayBody::Template { .. } => Some(DisplayOut::Templated),
    }
}

/// Evaluate a union display arm on the given field values.
pub fn eval_display_arm(arm: &DisplayArm, vals: &Vec<FieldVal>) -> (r: Option<DisplayOut>)
    ensures
        r == spec_eval_display_arm(*arm, vals@),
{
    match arm {
        DisplayArm::SoleField { field_idx } => {
            if *field_idx >= vals.len() {
                return None;
            }
            match &vals[*field_idx] {
                FieldVal::Plain(e) => Some(DisplayOut::Delegated(e.display)),
                FieldVal::Other(t) => Some(DisplayOut::Delegated(*t)),
                _ => None,
            }
        },
        DisplayArm::Template { .. } => Some(DisplayOut::Templated),
    }
}

/// Run a synthesized conversion constructor: build the field values of the
/// new record or variant from the incoming value, capturing `fresh` as the
/// backtrace of the moment of conversion. The owning indirection re-wraps
/// the same payload, so the stored value is the incoming value itself.
pub fn eval_from(init: &Initializer, n_fields: usize, incoming: ErrorVal, fresh: u64) -> (r: Vec<
    FieldVal,
>)
    requires
        init.from_field_idx < n_fields,
        match init.backtrace {
            Some(b) => b.field_idx < n_fields && b.field_idx != init.from_field_idx,
            None => true,
        },
    ensures
        r@.len() == n_fields,
        r@[init.from_field_idx as int] == FieldVal::Plain(incoming),
        match init.backtrace {
            Some(b) => r@[b.field_idx as int] == if b.nullable {
                FieldVal::NullableBt(Some(fresh))
            } else {
                FieldVal::Bt(fresh)
            },
            None => true,
        },
        forall|j: int|
            0 <= j < n_fields && j != init.from_field_idx && (match init.backtrace {
                Some(b) => j != b.field_idx,
                None => true,
            }) ==> r@[j] == FieldVal::Other(0),
{
    let mut vals: Vec<FieldVal> = Vec::new();
    let mut j: usize = 0;
    while j < n_fields
        invariant
            j <= n_fields,
            vals@.len() == j,
            forall|k: int| 0 <= k < j ==> vals@[k] == FieldVal::Other(0),
        decreases n_fields - j,
    {
        vals.push(FieldVal::Other(0));
        j += 1;
    }
    vals[init.from_field_idx] = FieldVal::Plain(incoming);
    match &init.backtrace {
        Some(b) => {
            if b.nullable {
                vals[b.field_idx] = FieldVal::NullableBt(Some(fresh));
            } else {
                vals[b.field_idx] = FieldVal::Bt(fresh);
            }
        },
        None => {},
    }
    vals
}

/// An abstract value of a tagged union: the active variant, the payload
/// type that variant wraps, and the payload value, by an opaque token.
pub struct UnionVal {
    pub variant_idx: usize,
    pub payload_ty: Ty,
    pub payload: u64,
}

/// The outcome of promoting an inner-union value into the outer union.
pub enum Promoted {
    /// The payload was re-wrapped into the sibling outer variant that wraps
    /// the same payload type.
    Sibling { variant_idx: usize, payload: u64 },
    /// No sibling matched: the whole inner value is wrapped as the
    /// designated promotion-source variant.
    Wrapped { variant_idx: usize, inner: UnionVal },
}

/// One rewrap case applies when the outer variant's payload type equals the
/// promoted payload type exactly.
pub open spec fn case_matches(c: RewrapCase, variants: Seq<crate::ast::Variant>, t: Ty) -> bool {
    c.variant_idx < variants.len() && variants[c.variant_idx as int].fields@.len() >= 1
        && spec_ty_eq(variants[c.variant_idx as int].fields@[0].ty, t)
}

/// The first rewrap case whose payload type matches, in table order.
pub open spec fn spec_find_sibling(
    cases: Seq<RewrapCase>,
    variants: Seq<crate::ast::Variant>,
    t: Ty,
) -> Option<RewrapCase>
    decreases cases.len(),
{
    if cases.len() == 0 {
        None
    } else if case_matches(cases[0], variants, t) {
        Some(cases[0])
    } else {
        spec_find_sibling(cases.subrange(1, cases.len() as int), variants, t)
    }
}

/// What promoting an inner value into the outer union yields: the first
/// matching sibling variant, and otherwise the fallback wrap — the dispatch
/// is total and no input is dropped on either path.
pub open spec fn spec_promote(e: Enum, p: Promotion, inner: UnionVal) -> Promoted {
    match spec_find_sibling(p.cases@, e.variants@, inner.payload_ty) {
        Some(c) => Promoted::Sibling { variant_idx: c.variant_idx, payload: inner.payload },
        None => Promoted::Wrapped { variant_idx: p.promo_variant_idx, inner },
    }
}

/// Run the promotion dispatch: try each rewrap case in table order against
/// the promoted payload type; re-wrap into the first sibling whose payload
/// type matches, and fall back to wrapping the whole inner value as the
/// promotion-source variant.
pub fn eval_promote(outer: &Enum, p: &Promotion, inner: UnionVal) -> (r: Promoted)
    ensures
        r == spec_promote(*outer, *p, inner),
{
    let n = p.cases.len();
    proof {
        assert(p.cases@.subrange(0, n as int) =~= p.cases@);
    }
    let mut i: usize = 0;
    while i < n
        invariant
            n == p.cases@.len(),
            i <= n,
            spec_find_sibling(p.cases@, outer.variants@, inner.payload_ty) == spec_find_sibling(
                p.cases@.subrange(i as int, n as int),
                outer.variants@,
                inner.payload_ty,
            ),
        decreases n - i,
    {
        let c = &p.cases[i];
        let matches_here = if c.variant_idx < outer.variants.len() && outer.variants[c.variant_idx].fields.len()
            >= 1 {
            ty_eq(&outer.variants[c.variant_idx].fields[0].ty, &inner.payload_ty)
        } else {
            false
        };
        proof {
            let rest = p.cases@.subrange(i as int, n as int);
            assert(rest[0] == p.cases@[i as int]);
            assert(rest.subrange(1, rest.len() as int) =~= p.cases@.subrange(i + 1, n as int));
        }
        if matches_here {
            return Promoted::Sibling { variant_idx: c.variant_idx, payload: inner.payload };
        }
        i += 1;
    }
    proof {
        assert(p.cases@.subrange(n as int, n as int) =~= Seq::<RewrapCase>::empty());
    }
    Promoted::Wrapped { variant_idx: p.promo_variant_idx, inner }
}

} // verus!
