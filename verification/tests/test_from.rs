use errgen::ast::{Args, Attrs, Display, Enum, Field, Generics, Input, Member, Seg, Struct, Ty, Variant};
use errgen::eval::{eval_promote, ErrorVal, Promoted, UnionVal};
use errgen::expand::{Expansion, Initializer, VariantFrom};

fn no_attrs() -> Attrs {
    Attrs {
        from: false,
        source: false,
        backtrace: false,
        from_unwrap: false,
        transparent: false,
        unwrap: false,
        display: None,
    }
}

fn seg(name: &str) -> Seg {
    Seg { name: name.to_string(), args: Args::Empty }
}

fn io_error_ty() -> Ty {
    Ty::Path(vec![seg("io"), seg("Error")])
}

fn anyhow_error_ty() -> Ty {
    Ty::Path(vec![seg("anyhow"), seg("Error")])
}

fn generics() -> Generics {
    Generics { params: vec![], where_clause: None }
}

fn dots_display() -> Option<Display> {
    Some(Display { fmt: "...".to_string(), has_bonus_display: false })
}

fn from_field(member: Member, ty: Ty) -> Field {
    Field { member, ty, attrs: Attrs { from: true, ..no_attrs() } }
}

fn error_struct() -> Struct {
    Struct {
        ident: "ErrorStruct".to_string(),
        generics: generics(),
        attrs: Attrs { display: dots_display(), ..no_attrs() },
        fields: vec![from_field(Member::Named("source".to_string()), io_error_ty())],
    }
}

fn error_tuple() -> Struct {
    Struct {
        ident: "ErrorTuple".to_string(),
        generics: generics(),
        attrs: Attrs { display: dots_display(), ..no_attrs() },
        fields: vec![from_field(Member::Unnamed(0), io_error_ty())],
    }
}

fn error_enum() -> Enum {
    Enum {
        ident: "ErrorEnum".to_string(),
        generics: generics(),
        attrs: Attrs { display: dots_display(), ..no_attrs() },
        variants: vec![Variant {
            ident: "Test".to_string(),
            attrs: no_attrs(),
            fields: vec![from_field(Member::Named("source".to_string()), io_error_ty())],
        }],
    }
}

fn many() -> Enum {
    Enum {
        ident: "Many".to_string(),
        generics: generics(),
        attrs: Attrs { display: dots_display(), unwrap: true, ..no_attrs() },
        variants: vec![
            Variant {
                ident: "Any".to_string(),
                attrs: no_attrs(),
                fields: vec![from_field(Member::Unnamed(0), anyhow_error_ty())],
            },
            Variant {
                ident: "Io".to_string(),
                attrs: no_attrs(),
                fields: vec![from_field(Member::Unnamed(0), io_error_ty())],
            },
        ],
    }
}

fn many_ty() -> Ty {
    Ty::Path(vec![seg("Many")])
}

fn wrapped() -> Enum {
    Enum {
        ident: "Wrapped".to_string(),
        generics: generics(),
        attrs: Attrs { display: dots_display(), ..no_attrs() },
        variants: vec![
            Variant {
                ident: "Io".to_string(),
                attrs: no_attrs(),
                fields: vec![from_field(Member::Unnamed(0), io_error_ty())],
            },
            Variant {
                ident: "ManyV".to_string(),
                attrs: no_attrs(),
                fields: vec![Field {
                    member: Member::Unnamed(0),
                    ty: many_ty(),
                    attrs: Attrs { from_unwrap: true, ..no_attrs() },
                }],
            },
        ],
    }
}

fn has_plain_from(impls: &[VariantFrom], variant_idx: usize) -> bool {
    impls.iter().any(|f| f.variant_idx == variant_idx)
}

#[test]
fn test_from() {
    let si = match errgen::expand::derive(&Input::Struct(error_struct())) {
        Expansion::Struct(si) => si,
        _ => panic!(),
    };
    assert!(matches!(
        si.from_impl,
        Some(Initializer { from_field_idx: 0, boxed: false, backtrace: None })
    ));

    let si = match errgen::expand::derive(&Input::Struct(error_tuple())) {
        Expansion::Struct(si) => si,
        _ => panic!(),
    };
    assert!(matches!(
        si.from_impl,
        Some(Initializer { from_field_idx: 0, boxed: false, backtrace: None })
    ));

    let ei = match errgen::expand::derive(&Input::Enum(error_enum())) {
        Expansion::Enum(ei) => ei,
        _ => panic!(),
    };
    assert!(has_plain_from(&ei.from_impls, 0));

    let ei = match errgen::expand::derive(&Input::Enum(many())) {
        Expansion::Enum(ei) => ei,
        _ => panic!(),
    };
    assert!(has_plain_from(&ei.from_impls, 0));
    assert!(has_plain_from(&ei.from_impls, 1));
    assert!(ei.unwrap_dispatch);

    let ei = match errgen::expand::derive(&Input::Enum(wrapped())) {
        Expansion::Enum(ei) => ei,
        _ => panic!(),
    };
    assert!(has_plain_from(&ei.from_impls, 0));
    assert!(!has_plain_from(&ei.from_impls, 1));
    assert_eq!(ei.promotions.len(), 1);
    assert_eq!(ei.promotions[0].promo_variant_idx, 1);
}

#[test]
fn test_from_wrapped() {
    let outer = wrapped();
    let ei = match errgen::expand::derive(&Input::Enum(wrapped())) {
        Expansion::Enum(ei) => ei,
        _ => panic!(),
    };
    let promo = &ei.promotions[0];

    // A value converted into Many through its io-error variant, then
    // promoted into Wrapped: the payload type matches Wrapped's own
    // io-error variant, so sibling promotion re-wraps it there.
    let e = UnionVal { variant_idx: 1, payload_ty: io_error_ty(), payload: 7 };
    let e = eval_promote(&outer, promo, e);
    match e {
        Promoted::Sibling { variant_idx: 0, payload: 7 } => {}
        _ => panic!(),
    }

    // A value wrapped by ErrorTuple and absorbed into Many through its
    // any-error variant: no Wrapped variant wraps that payload type, so the
    // whole Many value is wrapped as the promotion-source variant.
    let tuple_impl = match errgen::expand::derive(&Input::Struct(error_tuple())) {
        Expansion::Struct(si) => si,
        _ => panic!(),
    };
    assert!(tuple_impl.from_impl.is_some());
    let _io = ErrorVal { source: None, backtrace: None, display: 3 };
    let e = UnionVal { variant_idx: 0, payload_ty: anyhow_error_ty(), payload: 9 };
    let e = eval_promote(&outer, promo, e);
    match e {
        Promoted::Sibling { .. } => panic!(),
        Promoted::Wrapped { variant_idx: 1, inner } => {
            assert_eq!(inner.variant_idx, 0);
            assert_eq!(inner.payload, 9);
        }
        _ => panic!(),
    }
}
