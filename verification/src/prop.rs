//! The role resolver: deterministic rules that, given the fields of a record
//! or the variants of a tagged union, pick at most one field for each
//! semantic role. Absence of a role is a valid outcome; resolution is total
//! and ties are broken by declaration order, first match wins.

use vstd::prelude::*;

use crate::ast::str_eq;
use crate::ast::{Args, Enum, Field, Member, Struct, Ty, Variant};

verus! {

broadcast use vstd::std_specs::vec::group_vec_axioms;

/// The field is explicitly marked as conversion source.
pub open spec fn is_from_marked(f: Field) -> bool {
    f.attrs.from
}

/// The field is marked so that it plays the causal-source role: an explicit
/// causal-source mark, or the conversion-source mark, which implies it.
pub open spec fn is_source_marked(f: Field) -> bool {
    f.attrs.from || f.attrs.source
}

/// The field's member is literally named `source`.
pub open spec fn is_named_source(f: Field) -> bool {
    match f.member {
        Member::Named(n) => n@ == "source"@,
        _ => false,
    }
}

/// The field is explicitly marked as backtrace carrier.
pub open spec fn is_backtrace_marked(f: Field) -> bool {
    f.attrs.backtrace
}

/// The field's declared type is exactly the backtrace-capture type.
pub open spec fn is_backtrace_typed(f: Field) -> bool {
    spec_type_is_backtrace(f.ty)
}

/// The field is explicitly marked as promotion source.
pub open spec fn is_from_unwrap_marked(f: Field) -> bool {
    f.attrs.from_unwrap
}

/// The type descriptor is a path whose last segment is `Backtrace` with no
/// arguments.
pub open spec fn spec_type_is_backtrace(t: Ty) -> bool {
    match t {
        Ty::Path(segs) => segs@.len() > 0 && segs@.last().name@ == "Backtrace"@
            && segs@.last().args is Empty,
        _ => false,
    }
}

/// The type descriptor is a path whose last segment is the single-argument
/// nullable wrapper `Option`.
pub open spec fn spec_type_is_option(t: Ty) -> bool {
    match t {
        Ty::Path(segs) => segs@.len() > 0 && segs@.last().name@ == "Option"@ && match segs@.last().args {
            Args::Angle(v) => v@.len() == 1,
            _ => false,
        },
        _ => false,
    }
}

/// The payload of a single-segment `Box` path type, when the descriptor is
/// one.
pub open spec fn spec_box_inner(t: Ty) -> Option<Ty> {
    match t {
        Ty::Path(segs) => if segs@.len() == 1 && segs@[0].name@ == "Box"@ && segs@[0].args is Angle
            && segs@[0].args->Angle_0@.len() >= 1 {
            Some(segs@[0].args->Angle_0@[0])
        } else {
            None
        },
        _ => None,
    }
}

/// The index of the first field satisfying `p`, in declaration order.
pub open spec fn first_match(fields: Seq<Field>, p: spec_fn(Field) -> bool) -> Option<int>
    decreases fields.len(),
{
    if fields.len() == 0 {
        None
    } else if p(fields[0]) {
        Some(0)
    } else {
        match first_match(fields.subrange(1, fields.len() as int), p) {
            Some(i) => Some(i + 1),
            None => None,
        }
    }
}

/// `first_match` returns the first index whose field satisfies `p`: every
/// earlier field fails `p`, and when the result is absent every field does.
pub proof fn lemma_first_match(fields: Seq<Field>, p: spec_fn(Field) -> bool)
    ensures
        match first_match(fields, p) {
            Some(i) => 0 <= i < fields.len() && p(fields[i]) && (forall|j: int|
                0 <= j < i ==> !p(#[trigger] fields[j])),
            None => forall|j: int| 0 <= j < fields.len() ==> !p(#[trigger] fields[j]),
        },
    decreases fields.len(),
{
    if fields.len() > 0 && !p(fields[0]) {
        let tail = fields.subrange(1, fields.len() as int);
        lemma_first_match(tail, p);
        assert(forall|j: int| 0 <= j < tail.len() ==> #[trigger] tail[j] == fields[j + 1]);
        match first_match(tail, p) {
            Some(i) => {
                assert(first_match(fields, p) == Some(i + 1));
                assert forall|j: int| 0 <= j < i + 1 implies !p(#[trigger] fields[j]) by {
                    if j > 0 {
                        assert(!p(tail[j - 1]));
                    }
                }
            },
            None => {
                assert(first_match(fields, p) is None);
                assert forall|j: int| 0 <= j < fields.len() implies !p(#[trigger] fields[j]) by {
                    if j > 0 {
                        assert(!p(tail[j - 1]));
                    }
                }
            },
        }
    }
}

/// The conversion-source predicate as a first-class value.
pub open spec fn from_pred() -> spec_fn(Field) -> bool {
    |f: Field| is_from_marked(f)
}

/// The causal-source-mark predicate as a first-class value.
pub open spec fn source_marked_pred() -> spec_fn(Field) -> bool {
    |f: Field| is_source_marked(f)
}

/// The `source`-name predicate as a first-class value.
pub open spec fn named_source_pred() -> spec_fn(Field) -> bool {
    |f: Field| is_named_source(f)
}

/// The backtrace-mark predicate as a first-class value.
pub open spec fn backtrace_marked_pred() -> spec_fn(Field) -> bool {
    |f: Field| is_backtrace_marked(f)
}

/// The backtrace-type predicate as a first-class value.
pub open spec fn backtrace_typed_pred() -> spec_fn(Field) -> bool {
    |f: Field| is_backtrace_typed(f)
}

/// The promotion-source predicate as a first-class value.
pub open spec fn from_unwrap_pred() -> spec_fn(Field) -> bool {
    |f: Field| is_from_unwrap_marked(f)
}

/// The resolved conversion-source field: the first field explicitly marked
/// "from".
pub open spec fn spec_from_field(fields: Seq<Field>) -> Option<int> {
    first_match(fields, from_pred())
}

/// The resolved causal-source field: the first field marked "from" or
/// "source"; if none, the first field literally named `source`.
pub open spec fn spec_source_field(fields: Seq<Field>) -> Option<int> {
    match first_match(fields, source_marked_pred()) {
        Some(i) => Some(i),
        None => first_match(fields, named_source_pred()),
    }
}

/// The resolved backtrace field: the first field explicitly marked
/// "backtrace"; if none, the first field whose type is the backtrace-capture
/// type.
pub open spec fn spec_backtrace_field(fields: Seq<Field>) -> Option<int> {
    match first_match(fields, backtrace_marked_pred()) {
        Some(i) => Some(i),
        None => first_match(fields, backtrace_typed_pred()),
    }
}

/// The resolved promotion-source field: the first field explicitly marked
/// "from_unwrap".
pub open spec fn spec_from_unwrap_field(fields: Seq<Field>) -> Option<int> {
    first_match(fields, from_unwrap_pred())
}

/// An index option lifted to the mathematical indices of a field sequence.
pub open spec fn idx_opt(r: Option<usize>) -> Option<int> {
    match r {
        Some(i) => Some(i as int),
        None => None,
    }
}

/// Find the first field explicitly marked "from".
pub fn from_field(fields: &Vec<Field>) -> (r: Option<usize>)
    ensures
        idx_opt(r) == spec_from_field(fields@),
        match r {
            Some(i) => i < fields@.len(),
            None => true,
        },
{
    let n = fields.len();
    let mut i: usize = 0;
    while i < n
        invariant
            n == fields@.len(),
            i <= n,
            forall|j: int| 0 <= j < i ==> !is_from_marked(#[trigger] fields@[j]),
        decreases n - i,
    {
        if fields[i].attrs.from {
            proof {
                lemma_first_match(fields@, from_pred());
            }
            return Some(i);
        }
        i += 1;
    }
    proof {
        lemma_first_match(fields@, from_pred());
    }
    None
}

/// Find the first field explicitly marked "from_unwrap".
pub fn from_unwrap_field(fields: &Vec<Field>) -> (r: Option<usize>)
    ensures
        idx_opt(r) == spec_from_unwrap_field(fields@),
        match r {
            Some(i) => i < fields@.len(),
            None => true,
        },
{
    let n = fields.len();
    let mut i: usize = 0;
    while i < n
        invariant
            n == fields@.len(),
            i <= n,
            forall|j: int| 0 <= j < i ==> !is_from_unwrap_marked(#[trigger] fields@[j]),
        decreases n - i,
    {
        if fields[i].attrs.from_unwrap {
            proof {
                lemma_first_match(fields@, from_unwrap_pred());
            }
            return Some(i);
        }
        i += 1;
    }
    proof {
        lemma_first_match(fields@, from_unwrap_pred());
    }
    None
}

/// Find the causal-source field: the first field marked "from" or "source",
/// and otherwise the first field literally named `source`.
pub fn source_field(fields: &Vec<Field>) -> (r: Option<usize>)
    ensures
        idx_opt(r) == spec_source_field(fields@),
        match r {
            Some(i) => i < fields@.len(),
            None => true,
        },
{
    let n = fields.len();
    let mut i: usize = 0;
    while i < n
        invariant
            n == fields@.len(),
            i <= n,
            forall|j: int| 0 <= j < i ==> !is_source_marked(#[trigger] fields@[j]),
        decreases n - i,
    {
        if fields[i].attrs.from || fields[i].attrs.source {
            proof {
                lemma_first_match(fields@, source_marked_pred());
            }
            return Some(i);
        }
        i += 1;
    }
    proof {
        lemma_first_match(fields@, source_marked_pred());
    }
    let source_name: String = "source".to_owned();
    let mut i: usize = 0;
    while i < n
        invariant
            n == fields@.len(),
            source_name@ == "source"@,
            i <= n,
            forall|j: int| 0 <= j < n ==> !is_source_marked(#[trigger] fields@[j]),
            forall|j: int| 0 <= j < i ==> !is_named_source(#[trigger] fields@[j]),
        decreases n - i,
    {
        let named = match &fields[i].member {
            Member::Named(name) => str_eq(name, &source_name),
            _ => false,
        };
        if named {
            proof {
                lemma_first_match(fields@, source_marked_pred());
                lemma_first_match(fields@, named_source_pred());
            }
            return Some(i);
        }
        i += 1;
    }
    proof {
        lemma_first_match(fields@, source_marked_pred());
        lemma_first_match(fields@, named_source_pred());
    }
    None
}

/// Find the backtrace field: the first field explicitly marked "backtrace",
/// and otherwise the first field whose type is the backtrace-capture type.
pub fn backtrace_field(fields: &Vec<Field>) -> (r: Option<usize>)
    ensures
        idx_opt(r) == spec_backtrace_field(fields@),
        match r {
            Some(i) => i < fields@.len(),
            None => true,
        },
{
    let n = fields.len();
    let mut i: usize = 0;
    while i < n
        invariant
            n == fields@.len(),
            i <= n,
            forall|j: int| 0 <= j < i ==> !is_backtrace_marked(#[trigger] fields@[j]),
        decreases n - i,
    {
        if fields[i].attrs.backtrace {
            proof {
                lemma_first_match(fields@, backtrace_marked_pred());
            }
            return Some(i);
        }
        i += 1;
    }
    proof {
        lemma_first_match(fields@, backtrace_marked_pred());
    }
    let mut i: usize = 0;
    while i < n
        invariant
            n == fields@.len(),
            i <= n,
            forall|j: int| 0 <= j < n ==> !is_backtrace_marked(#[trigger] fields@[j]),
            forall|j: int| 0 <= j < i ==> !is_backtrace_typed(#[trigger] fields@[j]),
        decreases n - i,
    {
        if type_is_backtrace(&fields[i].ty) {
            proof {
                lemma_first_match(fields@, backtrace_marked_pred());
                lemma_first_match(fields@, backtrace_typed_pred());
            }
            return Some(i);
        }
        i += 1;
    }
    proof {
        lemma_first_match(fields@, backtrace_marked_pred());
        lemma_first_match(fields@, backtrace_typed_pred());
    }
    None
}

/// Decide whether a type descriptor is exactly the backtrace-capture type.
pub fn type_is_backtrace(ty: &Ty) -> (r: bool)
    ensures
        r == spec_type_is_backtrace(*ty),
{
    match ty {
        Ty::Path(segs) => {
            if segs.len() == 0 {
                return false;
            }
            let last = &segs[segs.len() - 1];
            let empty = match &last.args {
                Args::Empty => true,
                _ => false,
            };
            empty && str_eq(&last.name, &"Backtrace".to_owned())
        },
        _ => false,
    }
}

/// Extract the payload type of a single-segment heap-boxed wrapper type.
pub fn type_is_box<'a>(ty: &'a Ty) -> (r: Option<&'a Ty>)
    ensures
        match r {
            Some(inner) => spec_box_inner(*ty) == Some(*inner),
            None => spec_box_inner(*ty) is None,
        },
{
    let segs = match ty {
        Ty::Path(segs) => segs,
        _ => { return None; },
    };
    if segs.len() != 1 {
        return None;
    }
    let last = &segs[0];
    if !str_eq(&last.name, &"Box".to_owned()) {
        return None;
    }
    match &last.args {
        Args::Angle(args) => {
            if args.len() >= 1 {
                Some(&args[0])
            } else {
                None
            }
        },
        _ => None,
    }
}

impl Struct {
    /// The record's conversion-source field.
    pub fn from_field(&self) -> (r: Option<usize>)
        ensures
            idx_opt(r) == spec_from_field(self.fields@),
            match r {
                Some(i) => i < self.fields@.len(),
                None => true,
            },
    {
        from_field(&self.fields)
    }

    /// The record's causal-source field.
    pub fn source_field(&self) -> (r: Option<usize>)
        ensures
            idx_opt(r) == spec_source_field(self.fields@),
            match r {
                Some(i) => i < self.fields@.len(),
                None => true,
            },
    {
        source_field(&self.fields)
    }

    /// The record's backtrace field.
    pub fn backtrace_field(&self) -> (r: Option<usize>)
        ensures
            idx_opt(r) == spec_backtrace_field(self.fields@),
            match r {
                Some(i) => i < self.fields@.len(),
                None => true,
            },
    {
        backtrace_field(&self.fields)
    }
}

impl Variant {
    /// The variant's conversion-source field.
    pub fn from_field(&self) -> (r: Option<usize>)
        ensures
            idx_opt(r) == spec_from_field(self.fields@),
            match r {
                Some(i) => i < self.fields@.len(),
                None => true,
            },
    {
        from_field(&self.fields)
    }

    /// The variant's promotion-source field.
    pub fn from_unwrap_field(&self) -> (r: Option<usize>)
        ensures
            idx_opt(r) == spec_from_unwrap_field(self.fields@),
            match r {
                Some(i) => i < self.fields@.len(),
                None => true,
            },
    {
        from_unwrap_field(&self.fields)
    }

    /// The variant's causal-source field.
    pub fn source_field(&self) -> (r: Option<usize>)
        ensures
            idx_opt(r) == spec_source_field(self.fields@),
            match r {
                Some(i) => i < self.fields@.len(),
                None => true,
            },
    {
        source_field(&self.fields)
    }

    /// The variant's backtrace field.
    pub fn backtrace_field(&self) -> (r: Option<usize>)
        ensures
            idx_opt(r) == spec_backtrace_field(self.fields@),
            match r {
                Some(i) => i < self.fields@.len(),
                None => true,
            },
    {
        backtrace_field(&self.fields)
    }

    /// The payload type of the variant's owning indirection, when the variant
    /// has exactly one field and its type is a heap-boxed wrapper.
    pub fn is_boxed(&self) -> (r: Option<&Ty>)
        ensures
            match r {
                Some(inner) => spec_is_boxed(*self) == Some(*inner),
                None => spec_is_boxed(*self) is None,
            },
    {
        if self.fields.len() != 1 {
            return None;
        }
        type_is_box(&self.fields[0].ty)
    }
}

/// The payload type of a variant's owning indirection, when there is one.
pub open spec fn spec_is_boxed(v: Variant) -> Option<Ty> {
    if v.fields@.len() != 1 {
        None
    } else {
        spec_box_inner(v.fields@[0].ty)
    }
}

impl Field {
    /// The field's declared type is exactly the backtrace-capture type.
    pub fn is_backtrace(&self) -> (r: bool)
        ensures
            r == is_backtrace_typed(*self),
    {
        type_is_backtrace(&self.ty)
    }
}

/// The variant contributes a causal-source arm: it resolves a causal-source
/// field or is transparent.
pub open spec fn variant_has_source(v: Variant) -> bool {
    spec_source_field(v.fields@) is Some || v.attrs.transparent
}

/// The variant resolves a backtrace field.
pub open spec fn variant_has_backtrace(v: Variant) -> bool {
    spec_backtrace_field(v.fields@) is Some
}

/// The variant carries its own display template.
pub open spec fn variant_has_display_attr(v: Variant) -> bool {
    v.attrs.display is Some
}

/// The variant is transparent.
pub open spec fn variant_transparent(v: Variant) -> bool {
    v.attrs.transparent
}

/// Some variant of the union contributes a causal-source arm.
pub open spec fn spec_has_source(e: Enum) -> bool {
    exists|i: int| 0 <= i < e.variants@.len() && #[trigger] variant_has_source(e.variants@[i])
}

/// Some variant of the union resolves a backtrace field.
pub open spec fn spec_has_backtrace(e: Enum) -> bool {
    exists|i: int| 0 <= i < e.variants@.len() && #[trigger] variant_has_backtrace(e.variants@[i])
}

/// The union emits a display implementation: a union-level template or
/// transparency, some variant template, or every variant transparent.
pub open spec fn spec_has_display(e: Enum) -> bool {
    e.attrs.display is Some || e.attrs.transparent || (exists|i: int|
        0 <= i < e.variants@.len() && #[trigger] variant_has_display_attr(e.variants@[i]))
        || (forall|i: int|
        0 <= i < e.variants@.len() ==> #[trigger] variant_transparent(e.variants@[i]))
}

/// The union opts into cross-type promotion.
pub open spec fn spec_has_unwrap(e: Enum) -> bool {
    e.attrs.unwrap
}

impl Enum {
    /// Whether any variant contributes a causal-source arm.
    pub fn has_source(&self) -> (r: bool)
        ensures
            r == spec_has_source(*self),
    {
        let n = self.variants.len();
        let mut i: usize = 0;
        while i < n
            invariant
                n == self.variants@.len(),
                i <= n,
                forall|j: int| 0 <= j < i ==> !variant_has_source(#[trigger] self.variants@[j]),
            decreases n - i,
        {
            let v = &self.variants[i];
            if v.source_field().is_some() || v.attrs.transparent {
                proof {
                    assert(variant_has_source(self.variants@[i as int]));
                }
                return true;
            }
            i += 1;
        }
        false
    }

    /// Whether any variant resolves a backtrace field.
    pub fn has_backtrace(&self) -> (r: bool)
        ensures
            r == spec_has_backtrace(*self),
    {
        let n = self.variants.len();
        let mut i: usize = 0;
        while i < n
            invariant
                n == self.variants@.len(),
                i <= n,
                forall|j: int| 0 <= j < i ==> !variant_has_backtrace(#[trigger] self.variants@[j]),
            decreases n - i,
        {
            if self.variants[i].backtrace_field().is_some() {
                proof {
                    assert(variant_has_backtrace(self.variants@[i as int]));
                }
                return true;
            }
            i += 1;
        }
        false
    }

    /// Whether the union emits a display implementation.
    pub fn has_display(&self) -> (r: bool)
        ensures
            r == spec_has_display(*self),
    {
        if self.attrs.display.is_some() || self.attrs.transparent {
            return true;
        }
        let n = self.variants.len();
        let mut i: usize = 0;
        while i < n
            invariant
                n == self.variants@.len(),
                i <= n,
                forall|j: int| 0 <= j < i ==> !variant_has_display_attr(#[trigger] self.variants@[j]),
            decreases n - i,
        {
            if self.variants[i].attrs.display.is_some() {
                proof {
                    assert(variant_has_display_attr(self.variants@[i as int]));
                }
                return true;
            }
            i += 1;
        }
        let mut i: usize = 0;
        while i < n
            invariant
                n == self.variants@.len(),
                i <= n,
                self.attrs.display is None,
                !self.attrs.transparent,
                forall|j: int|
                    0 <= j < n ==> !variant_has_display_attr(#[trigger] self.variants@[j]),
                forall|j: int| 0 <= j < i ==> variant_transparent(#[trigger] self.variants@[j]),
            decreases n - i,
        {
            if !self.variants[i].attrs.transparent {
                proof {
                    assert(!variant_transparent(self.variants@[i as int]));
                }
                return false;
            }
            i += 1;
        }
        true
    }

    /// Whether the union opts into cross-type promotion.
    pub fn has_unwrap(&self) -> (r: bool)
        ensures
            r == spec_has_unwrap(*self),
    {
        self.attrs.unwrap
    }
}

} // verus!
