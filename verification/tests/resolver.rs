use errgen::ast::{ty_eq, Args, Attrs, Enum, Field, Generics, Member, Seg, Ty, Variant};
use errgen::prop::{
    backtrace_field, from_field, from_unwrap_field, source_field, type_is_backtrace, type_is_box,
};

fn no_attrs() -> Attrs {
    Attrs {
        from: false,
        source: false,
        backtrace: false,
        from_unwrap: false,
        transparent: false,
        unwrap: false,
        display: None,
    }
}

fn seg(name: &str) -> Seg {
    Seg { name: name.to_string(), args: Args::Empty }
}

fn plain_ty(name: &str) -> Ty {
    Ty::Path(vec![seg(name)])
}

fn backtrace_ty() -> Ty {
    Ty::Path(vec![seg("std"), seg("backtrace"), seg("Backtrace")])
}

fn option_ty(inner: Ty) -> Ty {
    Ty::Path(vec![Seg { name: "Option".to_string(), args: Args::Angle(vec![inner]) }])
}

fn box_ty(inner: Ty) -> Ty {
    Ty::Path(vec![Seg { name: "Box".to_string(), args: Args::Angle(vec![inner]) }])
}

fn field(name: &str, ty: Ty, attrs: Attrs) -> Field {
    Field { member: Member::Named(name.to_string()), ty, attrs }
}

#[test]
fn test_role_resolution_determinism() {
    let fields = vec![
        field("a", plain_ty("X"), Attrs { source: true, ..no_attrs() }),
        field("b", backtrace_ty(), no_attrs()),
        field("c", plain_ty("Y"), Attrs { from: true, ..no_attrs() }),
    ];
    assert_eq!(source_field(&fields), source_field(&fields));
    assert_eq!(from_field(&fields), from_field(&fields));
    assert_eq!(backtrace_field(&fields), backtrace_field(&fields));
    assert_eq!(from_unwrap_field(&fields), from_unwrap_field(&fields));
    assert_eq!(source_field(&fields), Some(0));
    assert_eq!(from_field(&fields), Some(2));
    assert_eq!(backtrace_field(&fields), Some(1));
    assert_eq!(from_unwrap_field(&fields), None);
}

#[test]
fn test_first_match_tie_break() {
    let fields = vec![
        field("a", plain_ty("X"), Attrs { source: true, ..no_attrs() }),
        field("b", plain_ty("Y"), Attrs { source: true, ..no_attrs() }),
    ];
    assert_eq!(source_field(&fields), Some(0));
}

#[test]
fn test_named_source_fallback() {
    // An unmarked field literally named `source` is the causal source.
    let fields = vec![
        field("first", plain_ty("X"), no_attrs()),
        field("source", plain_ty("Y"), no_attrs()),
    ];
    assert_eq!(source_field(&fields), Some(1));

    // A marked field wins over the name-based fallback, whatever the order.
    let fields = vec![
        field("source", plain_ty("X"), no_attrs()),
        field("cause", plain_ty("Y"), Attrs { source: true, ..no_attrs() }),
    ];
    assert_eq!(source_field(&fields), Some(1));

    // No mark and no field named `source`: no causal source at all.
    let fields = vec![field("first", plain_ty("X"), no_attrs())];
    assert_eq!(source_field(&fields), None);
}

#[test]
fn test_backtrace_type_fallback() {
    // An unmarked field of the backtrace-capture type carries the backtrace.
    let fields = vec![
        field("a", plain_ty("X"), no_attrs()),
        field("bt", backtrace_ty(), no_attrs()),
    ];
    assert_eq!(backtrace_field(&fields), Some(1));

    // An explicit mark wins over the type-based fallback.
    let fields = vec![
        field("bt", backtrace_ty(), no_attrs()),
        field("other", plain_ty("X"), Attrs { backtrace: true, ..no_attrs() }),
    ];
    assert_eq!(backtrace_field(&fields), Some(1));

    // A nullable backtrace type is not "exactly the backtrace type".
    let fields = vec![field("bt", option_ty(backtrace_ty()), no_attrs())];
    assert_eq!(backtrace_field(&fields), None);
}

#[test]
fn test_type_predicates() {
    assert!(type_is_backtrace(&backtrace_ty()));
    assert!(type_is_backtrace(&plain_ty("Backtrace")));
    assert!(!type_is_backtrace(&plain_ty("X")));
    assert!(!type_is_backtrace(&option_ty(backtrace_ty())));

    let boxed = box_ty(plain_ty("X"));
    match type_is_box(&boxed) {
        Some(inner) => assert!(ty_eq(inner, &plain_ty("X"))),
        None => panic!(),
    }
    assert!(type_is_box(&plain_ty("X")).is_none());
    // A multi-segment path is not the plain heap-box wrapper.
    let qualified = Ty::Path(vec![
        seg("std"),
        Seg { name: "Box".to_string(), args: Args::Angle(vec![plain_ty("X")]) },
    ]);
    assert!(type_is_box(&qualified).is_none());
}

#[test]
fn test_ty_eq() {
    assert!(ty_eq(&option_ty(plain_ty("X")), &option_ty(plain_ty("X"))));
    assert!(!ty_eq(&option_ty(plain_ty("X")), &option_ty(plain_ty("Y"))));
    assert!(!ty_eq(&plain_ty("X"), &box_ty(plain_ty("X"))));
    assert!(ty_eq(&Ty::Opaque("dyn Error".to_string()), &Ty::Opaque("dyn Error".to_string())));
    assert!(!ty_eq(&Ty::Opaque("dyn Error".to_string()), &plain_ty("X")));
}

#[test]
fn test_variant_queries() {
    let boxed_variant = Variant {
        ident: "Big".to_string(),
        attrs: no_attrs(),
        fields: vec![Field {
            member: Member::Unnamed(0),
            ty: box_ty(plain_ty("Payload")),
            attrs: Attrs { from: true, ..no_attrs() },
        }],
    };
    match boxed_variant.is_boxed() {
        Some(inner) => assert!(ty_eq(inner, &plain_ty("Payload"))),
        None => panic!(),
    }
    assert_eq!(boxed_variant.from_field(), Some(0));
    assert_eq!(boxed_variant.from_unwrap_field(), None);

    let two_fields = Variant {
        ident: "Two".to_string(),
        attrs: no_attrs(),
        fields: vec![
            field("a", box_ty(plain_ty("P")), no_attrs()),
            field("b", plain_ty("Q"), no_attrs()),
        ],
    };
    assert!(two_fields.is_boxed().is_none());
}

#[test]
fn test_enum_queries() {
    let e = Enum {
        ident: "E".to_string(),
        generics: Generics { params: vec![], where_clause: None },
        attrs: no_attrs(),
        variants: vec![
            Variant {
                ident: "A".to_string(),
                attrs: no_attrs(),
                fields: vec![field("x", plain_ty("X"), no_attrs())],
            },
            Variant {
                ident: "B".to_string(),
                attrs: no_attrs(),
                fields: vec![
                    field("cause", plain_ty("Y"), Attrs { source: true, ..no_attrs() }),
                    field("bt", backtrace_ty(), no_attrs()),
                ],
            },
        ],
    };
    assert!(e.has_source());
    assert!(e.has_backtrace());
    assert!(!e.has_display());
    assert!(!e.has_unwrap());

    let quiet = Enum {
        ident: "Quiet".to_string(),
        generics: Generics { params: vec![], where_clause: None },
        attrs: no_attrs(),
        variants: vec![Variant {
            ident: "A".to_string(),
            attrs: no_attrs(),
            fields: vec![field("x", plain_ty("X"), no_attrs())],
        }],
    };
    assert!(!quiet.has_source());
    assert!(!quiet.has_backtrace());
    assert!(!quiet.has_display());

    let transparent_all = Enum {
        ident: "T".to_string(),
        generics: Generics { params: vec![], where_clause: None },
        attrs: no_attrs(),
        variants: vec![Variant {
            ident: "A".to_string(),
            attrs: Attrs { transparent: true, ..no_attrs() },
            fields: vec![field("x", plain_ty("X"), no_attrs())],
        }],
    };
    assert!(transparent_all.has_source());
    assert!(transparent_all.has_display());
}

#[test]
fn test_field_is_backtrace() {
    assert!(field("bt", backtrace_ty(), no_attrs()).is_backtrace());
    assert!(!field("x", plain_ty("X"), no_attrs()).is_backtrace());
}
