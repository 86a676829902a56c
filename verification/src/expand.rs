//! The capability synthesizer: turns one resolved declaration into a
//! structured description of the implementations to emit — the causal-source
//! accessor, the backtrace accessor, the display formatter, the conversion
//! constructors, and the cross-type promotion dispatch. The description
//! refers to the declaration's fields and variants by index; an outer layer
//! renders it into source text.

use vstd::prelude::*;

use crate::ast::{Args, Enum, Field, Input, Member, Struct, Ty, Variant};
use crate::ast::{enum_wf, struct_wf};
use crate::ast::str_eq;
use crate::prop::{
    backtrace_field, from_field, from_unwrap_field, source_field, spec_backtrace_field,
    spec_from_field, spec_from_unwrap_field, spec_has_backtrace, spec_has_display,
    spec_has_source, spec_has_unwrap, spec_is_boxed, spec_source_field, spec_type_is_option,
    variant_has_display_attr,
};

verus! {

broadcast use vstd::std_specs::vec::group_vec_axioms;

/// The body of a generated causal-source accessor (or of one match arm).
pub enum SourceBody {
    /// Delegate through the sole field's own error-interface implementation.
    Transparent { field_idx: usize },
    /// Return the causal-source field's value, null-checked when nullable.
    FromField { field_idx: usize, nullable: bool },
}

/// The body of a generated backtrace accessor (or of one match arm).
pub enum BacktraceBody {
    /// Prefer the causal source's own backtrace; fall back to the local
    /// backtrace field only when the causal source yields none.
    Combined {
        source_idx: usize,
        source_nullable: bool,
        backtrace_idx: usize,
        backtrace_nullable: bool,
    },
    /// Return the local backtrace field, null-checked when nullable.
    Local { backtrace_idx: usize, nullable: bool },
}

/// The body of a generated display formatter (record case).
pub enum DisplayBody {
    /// Delegate to the sole field's own display.
    Transparent { field_idx: usize },
    /// Destructure the fields and evaluate the custom template against them.
    Template { fmt: String, has_bonus_display: bool },
}

/// One match arm of a generated union display formatter.
pub enum DisplayArm {
    /// Evaluate the variant's custom template against its fields.
    Template { fmt: String, has_bonus_display: bool },
    /// Format the sole field directly.
    SoleField { field_idx: usize },
}

/// How a conversion constructor fills the backtrace field: a fresh capture,
/// wrapped in "present" when the field is nullable.
pub struct BtInit {
    pub field_idx: usize,
    pub nullable: bool,
}

/// The body of a generated conversion constructor: which field receives the
/// incoming value, whether it is re-wrapped in the owning indirection, and
/// how the backtrace field is auto-captured.
pub struct Initializer {
    pub from_field_idx: usize,
    pub boxed: bool,
    pub backtrace: Option<BtInit>,
}

/// Everything emitted for a record declaration.
pub struct StructImpl {
    pub source_method: Option<SourceBody>,
    pub backtrace_method: Option<BacktraceBody>,
    pub display_impl: Option<DisplayBody>,
    pub from_impl: Option<Initializer>,
}

/// A conversion constructor for one union variant.
pub struct VariantFrom {
    pub variant_idx: usize,
    pub init: Initializer,
}

/// One case of the type-indexed rewrap table: the outer variant that wraps
/// the shared payload type.
pub struct RewrapCase {
    pub variant_idx: usize,
}

/// The promotion dispatch generated for one promotion-source variant: the
/// rewrap table over the sibling variants, in declaration order, plus the
/// designated fallback variant. The catch-all case over the outer type
/// itself is always present and is the identity.
pub struct Promotion {
    pub promo_variant_idx: usize,
    pub boxed: bool,
    pub cases: Vec<RewrapCase>,
}

/// Everything emitted for a tagged-union declaration. Accessor vectors hold
/// one arm per variant, in declaration order; an absent arm yields the
/// interface's default.
pub struct EnumImpl {
    pub source_arms: Option<Vec<Option<SourceBody>>>,
    pub backtrace_arms: Option<Vec<Option<BacktraceBody>>>,
    pub display_arms: Option<Vec<DisplayArm>>,
    pub from_impls: Vec<VariantFrom>,
    pub promotions: Vec<Promotion>,
    pub unwrap_dispatch: bool,
}

/// The result of synthesis for one declaration.
pub enum Expansion {
    Struct(StructImpl),
    Enum(EnumImpl),
}

/// A destructuring pattern over a field list.
pub enum Pat {
    Named(Vec<String>),
    Positional { count: usize },
    Empty,
}

/// The synthesized causal-source body for a field list: delegate when
/// transparent, read the resolved causal-source field when there is one,
/// and otherwise omit the accessor.
pub open spec fn spec_source_body(fields: Seq<Field>, transparent: bool) -> Option<SourceBody> {
    if transparent {
        Some(SourceBody::Transparent { field_idx: 0 })
    } else {
        match spec_source_field(fields) {
            Some(i) => Some(
                SourceBody::FromField {
                    field_idx: i as usize,
                    nullable: spec_type_is_option(fields[i].ty),
                },
            ),
            None => None,
        }
    }
}

/// The synthesized backtrace body for a field list: combined with the causal
/// source when both roles resolve, local otherwise, omitted without a
/// backtrace field.
pub open spec fn spec_backtrace_body(fields: Seq<Field>) -> Option<BacktraceBody> {
    match spec_backtrace_field(fields) {
        None => None,
        Some(b) => match spec_source_field(fields) {
            Some(s) => Some(
                BacktraceBody::Combined {
                    source_idx: s as usize,
                    source_nullable: spec_type_is_option(fields[s].ty),
                    backtrace_idx: b as usize,
                    backtrace_nullable: spec_type_is_option(fields[b].ty),
                },
            ),
            None => Some(
                BacktraceBody::Local {
                    backtrace_idx: b as usize,
                    nullable: spec_type_is_option(fields[b].ty),
                },
            ),
        },
    }
}

/// The synthesized display body for a record: delegate when transparent,
/// evaluate the custom template when there is one, and otherwise omit the
/// implementation.
pub open spec fn spec_display_body(s: Struct) -> Option<DisplayBody> {
    if s.attrs.transparent {
        Some(DisplayBody::Transparent { field_idx: 0 })
    } else {
        match s.attrs.display {
            Some(d) => Some(
                DisplayBody::Template { fmt: d.fmt, has_bonus_display: d.has_bonus_display },
            ),
            None => None,
        }
    }
}

/// The synthesized conversion initializer for a field list: the conversion
/// field receives the incoming value and the backtrace field, when present,
/// is auto-captured.
pub open spec fn spec_from_initializer(fields: Seq<Field>, from_idx: int, boxed: bool) -> Initializer {
    Initializer {
        from_field_idx: from_idx as usize,
        boxed,
        backtrace: match spec_backtrace_field(fields) {
            Some(b) => Some(
                BtInit { field_idx: b as usize, nullable: spec_type_is_option(fields[b].ty) },
            ),
            None => None,
        },
    }
}

/// Everything the synthesizer emits for a record declaration.
pub open spec fn spec_struct_impl(s: Struct) -> StructImpl {
    StructImpl {
        source_method: spec_source_body(s.fields@, s.attrs.transparent),
        backtrace_method: spec_backtrace_body(s.fields@),
        display_impl: spec_display_body(s),
        from_impl: match spec_from_field(s.fields@) {
            Some(i) => Some(spec_from_initializer(s.fields@, i, false)),
            None => None,
        },
    }
}

/// The causal-source match arm synthesized for one variant.
pub open spec fn spec_source_arm(v: Variant) -> Option<SourceBody> {
    spec_source_body(v.fields@, v.attrs.transparent)
}

/// The backtrace match arm synthesized for one variant.
pub open spec fn spec_backtrace_arm(v: Variant) -> Option<BacktraceBody> {
    spec_backtrace_body(v.fields@)
}

/// The display match arm synthesized for one variant.
pub open spec fn spec_display_arm(v: Variant) -> DisplayArm {
    match v.attrs.display {
        Some(d) => DisplayArm::Template { fmt: d.fmt, has_bonus_display: d.has_bonus_display },
        None => DisplayArm::SoleField { field_idx: 0 },
    }
}

/// The variant's plain conversion-source field: its conversion field, unless
/// the variant is a promotion source, which plain conversion excludes.
pub open spec fn spec_variant_plain_from(v: Variant) -> Option<int> {
    if spec_from_unwrap_field(v.fields@) is Some {
        None
    } else {
        spec_from_field(v.fields@)
    }
}

/// The per-variant conversion constructors of a union, in declaration order.
pub open spec fn spec_from_impls(variants: Seq<Variant>) -> Seq<VariantFrom>
    decreases variants.len(),
{
    if variants.len() == 0 {
        Seq::empty()
    } else {
        let prefix = spec_from_impls(variants.drop_last());
        let v = variants.last();
        let i = variants.len() - 1;
        match spec_variant_plain_from(v) {
            Some(f) => prefix.push(
                VariantFrom {
                    variant_idx: i as usize,
                    init: spec_from_initializer(v.fields@, f, spec_is_boxed(v) is Some),
                },
            ),
            None => prefix,
        }
    }
}

/// The indices of the union's promotion-source variants, in declaration
/// order.
pub open spec fn spec_promo_idxs(variants: Seq<Variant>) -> Seq<int>
    decreases variants.len(),
{
    if variants.len() == 0 {
        Seq::empty()
    } else {
        let prefix = spec_promo_idxs(variants.drop_last());
        if spec_from_unwrap_field(variants.last().fields@) is Some {
            prefix.push(variants.len() - 1)
        } else {
            prefix
        }
    }
}

/// The rewrap table for a promotion-source variant: one case per other
/// variant with exactly one field, in declaration order.
pub open spec fn spec_rewrap_cases(variants: Seq<Variant>, promo: int) -> Seq<RewrapCase>
    decreases variants.len(),
{
    if variants.len() == 0 {
        Seq::empty()
    } else {
        let prefix = spec_rewrap_cases(variants.drop_last(), promo);
        let i = variants.len() - 1;
        if i != promo && variants.last().fields@.len() == 1 {
            prefix.push(RewrapCase { variant_idx: i as usize })
        } else {
            prefix
        }
    }
}

/// The promotion dispatch generated for the promotion-source variant at
/// `vi`.
pub open spec fn promo_matches(p: Promotion, vi: int, variants: Seq<Variant>) -> bool {
    &&& p.promo_variant_idx == vi as usize
    &&& p.boxed == (spec_is_boxed(variants[vi]) is Some)
    &&& p.cases@ == spec_rewrap_cases(variants, vi)
}

/// Every variant either carries its own display template or has a sole
/// field to fall back to.
pub open spec fn variant_displayable(v: Variant) -> bool {
    variant_has_display_attr(v) || v.fields@.len() >= 1
}

/// What the union synthesizer assumes of its input: the shape invariants,
/// and, when a display implementation is owed, a template or sole field for
/// every variant.
pub open spec fn enum_input_wf(e: Enum) -> bool {
    &&& enum_wf(e)
    &&& (spec_has_display(e) ==> forall|i: int|
        0 <= i < e.variants@.len() ==> #[trigger] variant_displayable(e.variants@[i]))
}

/// Everything the synthesizer emits for a tagged-union declaration.
pub open spec fn enum_impl_matches(r: EnumImpl, e: Enum) -> bool {
    let vs = e.variants@;
    &&& (r.source_arms is Some <==> spec_has_source(e))
    &&& match r.source_arms {
        Some(arms) => arms@.len() == vs.len() && (forall|i: int|
            0 <= i < vs.len() ==> arms@[i] == #[trigger] spec_source_arm(vs[i])),
        None => true,
    }
    &&& (r.backtrace_arms is Some <==> spec_has_backtrace(e))
    &&& match r.backtrace_arms {
        Some(arms) => arms@.len() == vs.len() && (forall|i: int|
            0 <= i < vs.len() ==> arms@[i] == #[trigger] spec_backtrace_arm(vs[i])),
        None => true,
    }
    &&& (r.display_arms is Some <==> spec_has_display(e))
    &&& match r.display_arms {
        Some(arms) => arms@.len() == vs.len() && (forall|i: int|
            0 <= i < vs.len() ==> arms@[i] == #[trigger] spec_display_arm(vs[i])),
        None => true,
    }
    &&& r.from_impls@ == spec_from_impls(vs)
    &&& r.promotions@.len() == spec_promo_idxs(vs).len()
    &&& (forall|k: int|
        0 <= k < r.promotions@.len() ==> #[trigger] promo_matches(
            r.promotions@[k],
            spec_promo_idxs(vs)[k],
            vs,
        ))
    &&& r.unwrap_dispatch == spec_has_unwrap(e)
}

/// Decide whether a type descriptor is the single-argument nullable wrapper.
pub fn type_is_option(ty: &Ty) -> (r: bool)
    ensures
        r == spec_type_is_option(*ty),
{
    match ty {
        Ty::Path(segs) => {
            if segs.len() == 0 {
                return false;
            }
            let last = &segs[segs.len() - 1];
            let one_arg = match &last.args {
                Args::Angle(v) => v.len() == 1,
                _ => false,
            };
            one_arg && str_eq(&last.name, &"Option".to_owned())
        },
        _ => false,
    }
}

/// Build the destructuring pattern over a field list: named members in
/// braces, positional members as numbered bindings, empty braces for none.
pub fn fields_pat(fields: &Vec<Field>) -> (p: Pat)
    requires
        (forall|i: int| 0 <= i < fields@.len() ==> (#[trigger] fields@[i].member) is Named)
            || (forall|i: int| 0 <= i < fields@.len() ==> (#[trigger] fields@[i].member) is Unnamed),
    ensures
        fields@.len() == 0 ==> p == Pat::Empty,
        fields@.len() > 0 && fields@[0].member is Named ==> match p {
            Pat::Named(names) => names@.len() == fields@.len() && (forall|i: int|
                0 <= i < fields@.len() ==> names@[i]@ == (#[trigger] fields@[i].member)->Named_0@),
            _ => false,
        },
        fields@.len() > 0 && fields@[0].member is Unnamed ==> p == (Pat::Positional {
            count: fields@.len() as usize,
        }),
{
    let n = fields.len();
    if n == 0 {
        return Pat::Empty;
    }
    match &fields[0].member {
        Member::Named(_) => {
            let mut names: Vec<String> = Vec::new();
            let mut i: usize = 0;
            while i < n
                invariant
                    n == fields@.len(),
                    n > 0,
                    i <= n,
                    forall|k: int| 0 <= k < n ==> (#[trigger] fields@[k].member) is Named,
                    names@.len() == i,
                    forall|k: int|
                        0 <= k < i ==> names@[k]@ == (#[trigger] fields@[k].member)->Named_0@,
                decreases n - i,
            {
                match &fields[i].member {
                    Member::Named(name) => {
                        names.push(name.clone());
                    },
                    Member::Unnamed(_) => {
                        proof {
                            assert(false);
                        }
                    },
                }
                i += 1;
            }
            Pat::Named(names)
        },
        Member::Unnamed(_) => Pat::Positional { count: n },
    }
}

/// Build the conversion-constructor initializer: the conversion field takes
/// the incoming value, re-wrapped in the owning indirection when `boxed`,
/// and the backtrace field, when one resolves, is filled with a fresh
/// capture.
pub fn from_initializer(fields: &Vec<Field>, from_field_idx: usize, boxed: bool) -> (r: Initializer)
    ensures
        r == spec_from_initializer(fields@, from_field_idx as int, boxed),
{
    let backtrace = match backtrace_field(fields) {
        Some(b) => Some(BtInit { field_idx: b, nullable: type_is_option(&fields[b].ty) }),
        None => None,
    };
    Initializer { from_field_idx, boxed, backtrace }
}

/// Synthesize everything emitted for a record declaration.
pub fn impl_struct(input: &Struct) -> (r: StructImpl)
    requires
        struct_wf(*input),
    ensures
        r == spec_struct_impl(*input),
{
    let source_method = if input.attrs.transparent {
        Some(SourceBody::Transparent { field_idx: 0 })
    } else {
        match source_field(&input.fields) {
            Some(i) => Some(
                SourceBody::FromField { field_idx: i, nullable: type_is_option(&input.fields[i].ty) },
            ),
            None => None,
        }
    };
    let backtrace_method = match backtrace_field(&input.fields) {
        None => None,
        Some(b) => match source_field(&input.fields) {
            Some(s) => Some(
                BacktraceBody::Combined {
                    source_idx: s,
                    source_nullable: type_is_option(&input.fields[s].ty),
                    backtrace_idx: b,
                    backtrace_nullable: type_is_option(&input.fields[b].ty),
                },
            ),
            None => Some(
                BacktraceBody::Local { backtrace_idx: b, nullable: type_is_option(&input.fields[b].ty) },
            ),
        },
    };
    let display_impl = if input.attrs.transparent {
        Some(DisplayBody::Transparent { field_idx: 0 })
    } else {
        match &input.attrs.display {
            Some(d) => Some(
                DisplayBody::Template { fmt: d.fmt.clone(), has_bonus_display: d.has_bonus_display },
            ),
            None => None,
        }
    };
    let from_impl = match from_field(&input.fields) {
        Some(i) => Some(from_initializer(&input.fields, i, false)),
        None => None,
    };
    StructImpl { source_method, backtrace_method, display_impl, from_impl }
}

/// Dispatch one declaration to the matching synthesizer.
pub fn derive(node: &Input) -> (r: Expansion)
    requires
        match *node {
            Input::Struct(s) => struct_wf(s),
            Input::Enum(e) => enum_input_wf(e),
        },
    ensures
        match *node {
            Input::Struct(s) => r matches Expansion::Struct(si) && si == spec_struct_impl(s),
            Input::Enum(e) => r matches Expansion::Enum(ei) && enum_impl_matches(ei, e),
        },
{
    match node {
        Input::Struct(s) => Expansion::Struct(impl_struct(s)),
        Input::Enum(e) => Expansion::Enum(impl_enum(e)),
    }
}

/// Synthesize everything emitted for a tagged-union declaration.
pub fn impl_enum(input: &Enum) -> (r: EnumImpl)
    requires
        enum_input_wf(*input),
    ensures
        enum_impl_matches(r, *input),
{
    let n = input.variants.len();

    let source_arms = if input.has_source() {
        let mut arms: Vec<Option<SourceBody>> = Vec::new();
        let mut i: usize = 0;
        while i < n
            invariant
                n == input.variants@.len(),
                i <= n,
                arms@.len() == i,
                forall|k: int|
                    0 <= k < i ==> arms@[k] == #[trigger] spec_source_arm(input.variants@[k]),
            decreases n - i,
        {
            let v = &input.variants[i];
            let arm = if v.attrs.transparent {
                Some(SourceBody::Transparent { field_idx: 0 })
            } else {
                match source_field(&v.fields) {
                    Some(s) => Some(
                        SourceBody::FromField {
                            field_idx: s,
                            nullable: type_is_option(&v.fields[s].ty),
                        },
                    ),
                    None => None,
                }
            };
            arms.push(arm);
            i += 1;
        }
        Some(arms)
    } else {
        None
    };

    let backtrace_arms = if input.has_backtrace() {
        let mut arms: Vec<Option<BacktraceBody>> = Vec::new();
        let mut i: usize = 0;
        while i < n
            invariant
                n == input.variants@.len(),
                i <= n,
                arms@.len() == i,
                forall|k: int|
                    0 <= k < i ==> arms@[k] == #[trigger] spec_backtrace_arm(input.variants@[k]),
            decreases n - i,
        {
            let v = &input.variants[i];
            let arm = match backtrace_field(&v.fields) {
                None => None,
                Some(b) => match source_field(&v.fields) {
                    Some(s) => Some(
                        BacktraceBody::Combined {
                            source_idx: s,
                            source_nullable: type_is_option(&v.fields[s].ty),
                            backtrace_idx: b,
                            backtrace_nullable: type_is_option(&v.fields[b].ty),
                        },
                    ),
                    None => Some(
                        BacktraceBody::Local {
                            backtrace_idx: b,
                            nullable: type_is_option(&v.fields[b].ty),
                        },
                    ),
                },
            };
            arms.push(arm);
            i += 1;
        }
        Some(arms)
    } else {
        None
    };

    let display_arms = if input.has_display() {
        let mut arms: Vec<DisplayArm> = Vec::new();
        let mut i: usize = 0;
        while i < n
            invariant
                n == input.variants@.len(),
                i <= n,
                spec_has_display(*input),
                enum_input_wf(*input),
                arms@.len() == i,
                forall|k: int|
                    0 <= k < i ==> arms@[k] == #[trigger] spec_display_arm(input.variants@[k]),
            decreases n - i,
        {
            let v = &input.variants[i];
            proof {
                assert(variant_displayable(input.variants@[i as int]));
            }
            let arm = match &v.attrs.display {
                Some(d) => DisplayArm::Template {
                    fmt: d.fmt.clone(),
                    has_bonus_display: d.has_bonus_display,
                },
                None => DisplayArm::SoleField { field_idx: 0 },
            };
            arms.push(arm);
            i += 1;
        }
        Some(arms)
    } else {
        None
    };

    let mut from_impls: Vec<VariantFrom> = Vec::new();
    let mut i: usize = 0;
    while i < n
        invariant
            n == input.variants@.len(),
            i <= n,
            from_impls@ == spec_from_impls(input.variants@.subrange(0, i as int)),
        decreases n - i,
    {
        let v = &input.variants[i];
        let plain_from = if from_unwrap_field(&v.fields).is_some() {
            None
        } else {
            from_field(&v.fields)
        };
        match plain_from {
            Some(f) => {
                let boxed = v.is_boxed().is_some();
                from_impls.push(
                    VariantFrom { variant_idx: i, init: from_initializer(&v.fields, f, boxed) },
                );
            },
            None => {},
        }
        proof {
            let pre = input.variants@.subrange(0, i as int);
            let post = input.variants@.subrange(0, i + 1);
            assert(post.drop_last() =~= pre);
            assert(post.last() == input.variants@[i as int]);
        }
        i += 1;
    }
    proof {
        assert(input.variants@.subrange(0, n as int) =~= input.variants@);
    }

    let mut promotions: Vec<Promotion> = Vec::new();
    let mut i: usize = 0;
    while i < n
        invariant
            n == input.variants@.len(),
            i <= n,
            promotions@.len() == spec_promo_idxs(input.variants@.subrange(0, i as int)).len(),
            forall|k: int|
                0 <= k < promotions@.len() ==> #[trigger] promo_matches(
                    promotions@[k],
                    spec_promo_idxs(input.variants@.subrange(0, i as int))[k],
                    input.variants@,
                ),
        decreases n - i,
    {
        let v = &input.variants[i];
        if from_unwrap_field(&v.fields).is_some() {
            let boxed = v.is_boxed().is_some();
            let cases = rewrap_cases(&input.variants, i);
            promotions.push(Promotion { promo_variant_idx: i, boxed, cases });
        }
        proof {
            let pre = input.variants@.subrange(0, i as int);
            let post = input.variants@.subrange(0, i + 1);
            assert(post.drop_last() =~= pre);
            assert(post.last() == input.variants@[i as int]);
        }
        i += 1;
    }
    proof {
        assert(input.variants@.subrange(0, n as int) =~= input.variants@);
    }

    EnumImpl {
        source_arms,
        backtrace_arms,
        display_arms,
        from_impls,
        promotions,
        unwrap_dispatch: input.has_unwrap(),
    }
}

/// Build the rewrap table for the promotion-source variant at `promo`: one
/// case per other variant with exactly one field, in declaration order.
fn rewrap_cases(variants: &Vec<Variant>, promo: usize) -> (r: Vec<RewrapCase>)
    ensures
        r@ == spec_rewrap_cases(variants@, promo as int),
{
    let n = variants.len();
    let mut cases: Vec<RewrapCase> = Vec::new();
    let mut i: usize = 0;
    while i < n
        invariant
            n == variants@.len(),
            i <= n,
            cases@ == spec_rewrap_cases(variants@.subrange(0, i as int), promo as int),
        decreases n - i,
    {
        if i != promo && variants[i].fields.len() == 1 {
            cases.push(RewrapCase { variant_idx: i });
        }
        proof {
            let pre = variants@.subrange(0, i as int);
            let post = variants@.subrange(0, i + 1);
            assert(post.drop_last() =~= pre);
            assert(post.last() == variants@[i as int]);
        }
        i += 1;
    }
    proof {
        assert(variants@.subrange(0, n as int) =~= variants@);
    }
    cases
}

} // verus!
