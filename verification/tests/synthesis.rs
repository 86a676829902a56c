use errgen::ast::{Args, Attrs, Display, Enum, Field, Generics, Input, Member, Seg, Struct, Ty, Variant};
use errgen::eval::{
    eval_backtrace, eval_display, eval_display_arm, eval_from, eval_source, DisplayOut, ErrorVal,
    FieldVal,
};
use errgen::expand::{
    fields_pat, BacktraceBody, BtInit, DisplayArm, DisplayBody, Expansion, Initializer,
    Pat, SourceBody,
};

fn no_attrs() -> Attrs {
    Attrs {
        from: false,
        source: false,
        backtrace: false,
        from_unwrap: false,
        transparent: false,
        unwrap: false,
        display: None,
    }
}

fn seg(name: &str) -> Seg {
    Seg { name: name.to_string(), args: Args::Empty }
}

fn plain_ty(name: &str) -> Ty {
    Ty::Path(vec![seg(name)])
}

fn backtrace_ty() -> Ty {
    Ty::Path(vec![seg("Backtrace")])
}

fn option_ty(inner: Ty) -> Ty {
    Ty::Path(vec![Seg { name: "Option".to_string(), args: Args::Angle(vec![inner]) }])
}

fn field(name: &str, ty: Ty, attrs: Attrs) -> Field {
    Field { member: Member::Named(name.to_string()), ty, attrs }
}

fn generics() -> Generics {
    Generics { params: vec![], where_clause: None }
}

fn record(fields: Vec<Field>, attrs: Attrs) -> Struct {
    Struct { ident: "R".to_string(), generics: generics(), attrs, fields }
}

fn err_val(backtrace: Option<u64>, display: u64) -> ErrorVal {
    ErrorVal { source: None, backtrace, display }
}

fn expand_struct(s: Struct) -> errgen::expand::StructImpl {
    match errgen::expand::derive(&Input::Struct(s)) {
        Expansion::Struct(si) => si,
        _ => panic!(),
    }
}

#[test]
fn test_transparent_delegation() {
    // Wrapper { inner: E } marked transparent: source and display both
    // delegate to the sole field's own implementations.
    let wrapper = record(
        vec![field("inner", plain_ty("E"), no_attrs())],
        Attrs { transparent: true, ..no_attrs() },
    );
    let si = expand_struct(wrapper);
    assert!(matches!(si.source_method, Some(SourceBody::Transparent { field_idx: 0 })));
    assert!(matches!(si.display_impl, Some(DisplayBody::Transparent { field_idx: 0 })));
    assert!(si.backtrace_method.is_none());
    assert!(si.from_impl.is_none());

    // The delegate has its own cause: the wrapper's accessor returns it.
    let cause = err_val(None, 5);
    let inner = ErrorVal { source: Some(Box::new(cause)), backtrace: None, display: 8 };
    let vals = vec![FieldVal::Plain(inner)];
    let got = eval_source(&si.source_method, &vals);
    assert_eq!(got.unwrap().display, 5);

    // The delegate has no cause: neither has the wrapper.
    let vals = vec![FieldVal::Plain(err_val(None, 8))];
    assert!(eval_source(&si.source_method, &vals).is_none());

    // Display delegates to the sole field's own display.
    let display_body = si.display_impl.as_ref().unwrap();
    let vals = vec![FieldVal::Plain(err_val(None, 8))];
    assert!(matches!(eval_display(display_body, &vals), Some(DisplayOut::Delegated(8))));
}

#[test]
fn test_backtrace_preference() {
    // Non-nullable source, non-nullable backtrace.
    let s = record(
        vec![
            field("s", plain_ty("E"), Attrs { source: true, ..no_attrs() }),
            field("b", backtrace_ty(), no_attrs()),
        ],
        no_attrs(),
    );
    let si = expand_struct(s);
    assert!(matches!(
        si.backtrace_method,
        Some(BacktraceBody::Combined {
            source_idx: 0,
            source_nullable: false,
            backtrace_idx: 1,
            backtrace_nullable: false,
        })
    ));
    let vals = vec![FieldVal::Plain(err_val(Some(5), 0)), FieldVal::Bt(9)];
    assert_eq!(eval_backtrace(&si.backtrace_method, &vals), Some(5));
    let vals = vec![FieldVal::Plain(err_val(None, 0)), FieldVal::Bt(9)];
    assert_eq!(eval_backtrace(&si.backtrace_method, &vals), Some(9));

    // Nullable source, nullable backtrace.
    let s = record(
        vec![
            field("s", option_ty(plain_ty("E")), Attrs { source: true, ..no_attrs() }),
            field("b", option_ty(backtrace_ty()), Attrs { backtrace: true, ..no_attrs() }),
        ],
        no_attrs(),
    );
    let si = expand_struct(s);
    assert!(matches!(
        si.backtrace_method,
        Some(BacktraceBody::Combined {
            source_idx: 0,
            source_nullable: true,
            backtrace_idx: 1,
            backtrace_nullable: true,
        })
    ));
    let vals = vec![
        FieldVal::Nullable(Some(err_val(Some(5), 0))),
        FieldVal::NullableBt(Some(9)),
    ];
    assert_eq!(eval_backtrace(&si.backtrace_method, &vals), Some(5));
    let vals = vec![FieldVal::Nullable(None), FieldVal::NullableBt(Some(9))];
    assert_eq!(eval_backtrace(&si.backtrace_method, &vals), Some(9));
    let vals = vec![FieldVal::Nullable(Some(err_val(None, 0))), FieldVal::NullableBt(None)];
    assert_eq!(eval_backtrace(&si.backtrace_method, &vals), None);

    // No source field at all: the local backtrace field alone.
    let s = record(vec![field("b", backtrace_ty(), no_attrs())], no_attrs());
    let si = expand_struct(s);
    assert!(matches!(
        si.backtrace_method,
        Some(BacktraceBody::Local { backtrace_idx: 0, nullable: false })
    ));
    let vals = vec![FieldVal::Bt(4)];
    assert_eq!(eval_backtrace(&si.backtrace_method, &vals), Some(4));
}

#[test]
fn test_conversion_round_trip() {
    let s = record(
        vec![
            field("source", plain_ty("E"), Attrs { from: true, ..no_attrs() }),
            field("backtrace", backtrace_ty(), no_attrs()),
        ],
        no_attrs(),
    );
    let si = expand_struct(s);
    let init = match &si.from_impl {
        Some(init) => init,
        None => panic!(),
    };
    assert!(matches!(
        init,
        Initializer {
            from_field_idx: 0,
            boxed: false,
            backtrace: Some(BtInit { field_idx: 1, nullable: false }),
        }
    ));

    // Convert a value in, then read the causal source back out.
    let t = err_val(None, 77);
    let vals = eval_from(init, 2, t, 42);
    let got = eval_source(&si.source_method, &vals);
    assert_eq!(got.unwrap().display, 77);
    // The backtrace captured at the moment of conversion is accessible.
    assert_eq!(eval_backtrace(&si.backtrace_method, &vals), Some(42));

    // A nullable backtrace field is wrapped in "present".
    let s = record(
        vec![
            field("source", plain_ty("E"), Attrs { from: true, ..no_attrs() }),
            field("backtrace", option_ty(backtrace_ty()), Attrs { backtrace: true, ..no_attrs() }),
        ],
        no_attrs(),
    );
    let si = expand_struct(s);
    let init = si.from_impl.as_ref().unwrap();
    assert!(matches!(init.backtrace, Some(BtInit { field_idx: 1, nullable: true })));
    let vals = eval_from(init, 2, err_val(None, 1), 43);
    assert!(matches!(vals[1], FieldVal::NullableBt(Some(43))));
    assert_eq!(eval_backtrace(&si.backtrace_method, &vals), Some(43));
}

#[test]
fn test_plain_record_accessors() {
    // A record with no roles at all: every capability piece is omitted.
    let s = record(vec![field("x", plain_ty("X"), no_attrs())], no_attrs());
    let si = expand_struct(s);
    assert!(si.source_method.is_none());
    assert!(si.backtrace_method.is_none());
    assert!(si.display_impl.is_none());
    assert!(si.from_impl.is_none());

    // A custom template destructures the fields and formats.
    let s = record(
        vec![field("x", plain_ty("X"), no_attrs())],
        Attrs {
            display: Some(Display { fmt: "{x}".to_string(), has_bonus_display: false }),
            ..no_attrs()
        },
    );
    let si = expand_struct(s);
    match &si.display_impl {
        Some(DisplayBody::Template { fmt, has_bonus_display: false }) => {
            assert_eq!(fmt, "{x}");
        }
        _ => panic!(),
    }

    // A nullable causal source is null-checked before dereferencing.
    let s = record(
        vec![field("source", option_ty(plain_ty("E")), no_attrs())],
        no_attrs(),
    );
    let si = expand_struct(s);
    assert!(matches!(
        si.source_method,
        Some(SourceBody::FromField { field_idx: 0, nullable: true })
    ));
    let vals = vec![FieldVal::Nullable(Some(err_val(None, 3)))];
    assert_eq!(eval_source(&si.source_method, &vals).unwrap().display, 3);
    let vals = vec![FieldVal::Nullable(None)];
    assert!(eval_source(&si.source_method, &vals).is_none());
}

#[test]
fn test_enum_display_arms() {
    let e = Enum {
        ident: "E".to_string(),
        generics: generics(),
        attrs: no_attrs(),
        variants: vec![
            Variant {
                ident: "Templated".to_string(),
                attrs: Attrs {
                    display: Some(Display { fmt: "oh no".to_string(), has_bonus_display: true }),
                    ..no_attrs()
                },
                fields: vec![],
            },
            Variant {
                ident: "Plain".to_string(),
                attrs: no_attrs(),
                fields: vec![field("x", plain_ty("X"), no_attrs())],
            },
        ],
    };
    let ei = match errgen::expand::derive(&Input::Enum(e)) {
        Expansion::Enum(ei) => ei,
        _ => panic!(),
    };
    let arms = ei.display_arms.as_ref().unwrap();
    assert_eq!(arms.len(), 2);
    match &arms[0] {
        DisplayArm::Template { fmt, has_bonus_display: true } => assert_eq!(fmt, "oh no"),
        _ => panic!(),
    }
    assert!(matches!(arms[1], DisplayArm::SoleField { field_idx: 0 }));
    let vals = vec![FieldVal::Other(12)];
    assert!(matches!(eval_display_arm(&arms[1], &vals), Some(DisplayOut::Delegated(12))));
}

#[test]
fn test_fields_pat() {
    let named = vec![
        field("a", plain_ty("X"), no_attrs()),
        field("b", plain_ty("Y"), no_attrs()),
    ];
    match fields_pat(&named) {
        Pat::Named(names) => assert_eq!(names, vec!["a".to_string(), "b".to_string()]),
        _ => panic!(),
    }

    let positional = vec![
        Field { member: Member::Unnamed(0), ty: plain_ty("X"), attrs: no_attrs() },
        Field { member: Member::Unnamed(1), ty: plain_ty("Y"), attrs: no_attrs() },
    ];
    assert!(matches!(fields_pat(&positional), Pat::Positional { count: 2 }));

    assert!(matches!(fields_pat(&vec![]), Pat::Empty));
}

#[test]
fn test_empty_union() {
    // With no variants every variant is vacuously transparent, so a display
    // implementation is owed; it has no arms, and nothing else is emitted.
    let e = Enum {
        ident: "Never".to_string(),
        generics: generics(),
        attrs: no_attrs(),
        variants: vec![],
    };
    assert!(e.has_display());
    let ei = match errgen::expand::derive(&Input::Enum(e)) {
        Expansion::Enum(ei) => ei,
        _ => panic!(),
    };
    assert!(ei.display_arms.as_ref().unwrap().is_empty());
    assert!(ei.source_arms.is_none());
    assert!(ei.backtrace_arms.is_none());
    assert!(ei.from_impls.is_empty());
    assert!(ei.promotions.is_empty());
    assert!(!ei.unwrap_dispatch);
}
