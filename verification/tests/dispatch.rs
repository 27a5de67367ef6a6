use guideline_lints::dispatcher::Dispatcher;
use guideline_lints::finding::{Applicability, Lint};
use guideline_lints::hir::{
    AdtDef, Arm, Expr, ExprKind, FnSig, Item, ItemKind, LitKind, MacroCall, Pat, PatExpr, PatKind,
    RangeEnd, ReprOptions, Scrutinee, Ty,
};
use guideline_lints::msrv::Version;
use guideline_lints::symbol::{DefId, Span};

fn configured() -> Dispatcher {
    let mut dispatcher = Dispatcher::new(
        vec!["memcpy".to_string(), "other::strcpy".to_string()],
        Some(Version::Normal { major: 1, minor: 30, patch: 0 }),
    );
    let lookups = dispatcher.lookups();
    assert_eq!(lookups.len(), 2);
    assert_eq!(lookups[0], vec!["libc".to_string(), "memcpy".to_string()]);
    assert_eq!(lookups[1], vec!["other".to_string(), "strcpy".to_string()]);
    dispatcher.check_crate(&vec![
        vec![DefId { krate: 3, index: 8 }],
        vec![DefId { krate: 4, index: 1 }, DefId { krate: 5, index: 1 }],
    ]);
    dispatcher
}

fn digits(in_constant: bool) -> Expr {
    let pat = Pat {
        kind: PatKind::Range(
            Some(PatExpr::Lit(LitKind::Char('0'))),
            Some(PatExpr::Lit(LitKind::Char('9'))),
            RangeEnd::Included,
        ),
        span: Span { lo: 13, hi: 21 },
    };
    Expr {
        kind: ExprKind::Match {
            scrutinee: Scrutinee { span: Span { lo: 9, hi: 11 }, text: Some("ch".to_string()) },
            arms: vec![
                Arm { pat, guarded: false, from_expansion: false },
                Arm {
                    pat: Pat { kind: PatKind::Other, span: Span { lo: 0, hi: 22 } },
                    guarded: false,
                    from_expansion: true,
                },
            ],
        },
        span: Span { lo: 0, hi: 22 },
        in_constant,
        root_macro: Some(MacroCall {
            def_id: DefId { krate: 2, index: 77 },
            span: Span { lo: 0, hi: 22 },
            diagnostic_name: Some("matches_macro".to_string()),
        }),
    }
}

#[test]
fn an_item_goes_to_the_rule_on_layouts() {
    let dispatcher = configured();
    let bare = AdtDef {
        did: DefId { krate: 0, index: 12 },
        span: Span { lo: 500, hi: 560 },
        repr: ReprOptions { c: false, simd: false, transparent: false, packed: false, aligned: false },
    };
    let item = Item {
        kind: ItemKind::Fn(FnSig {
            text: Some("pub extern \"C\" fn export(arg: &Bare)".to_string()),
            inputs: vec![Ty::Ref(Box::new(Ty::Adt(bare)))],
        }),
        span: Span { lo: 600, hi: 640 },
    };
    let findings = dispatcher.check_item(&item);
    assert_eq!(findings.len(), 1);
    assert_eq!(findings[0].lint, Lint::ExternWithoutRepr);
    assert_eq!(findings[0].span, Span { lo: 500, hi: 560 });
}

#[test]
fn a_call_goes_to_the_rule_on_calls() {
    let dispatcher = configured();
    for callee in [DefId { krate: 3, index: 8 }, DefId { krate: 4, index: 1 }, DefId { krate: 5, index: 1 }] {
        let call = Expr {
            kind: ExprKind::Call { callee: Some(callee) },
            span: Span { lo: 70, hi: 90 },
            in_constant: false,
            root_macro: None,
        };
        let findings = dispatcher.check_expr(&call);
        assert_eq!(findings.len(), 1);
        assert_eq!(findings[0].lint, Lint::MemUnsafeFunctions);
        assert_eq!(findings[0].span, Span { lo: 70, hi: 90 });
        assert!(findings[0].suggestion.is_none());
    }
    let harmless = Expr {
        kind: ExprKind::Call { callee: Some(DefId { krate: 3, index: 9 }) },
        span: Span { lo: 70, hi: 90 },
        in_constant: false,
        root_macro: None,
    };
    assert!(dispatcher.check_expr(&harmless).is_empty());
}

#[test]
fn a_selector_goes_to_the_rule_on_ranges() {
    let dispatcher = configured();
    let findings = dispatcher.check_expr(&digits(false));
    assert_eq!(findings.len(), 1);
    assert_eq!(findings[0].lint, Lint::ManualIsAsciiCheck);
    let suggestion = findings[0].suggestion.as_ref().unwrap();
    assert_eq!(suggestion.replacement, "ch.is_ascii_digit()");
    assert_eq!(suggestion.applicability, Applicability::MachineApplicable);
    assert!(dispatcher.check_expr(&digits(true)).is_empty());
}

#[test]
fn resolution_leaves_the_version_gate_alone() {
    let mut dispatcher = Dispatcher::new(vec![], Some(Version::Normal { major: 1, minor: 20, patch: 0 }));
    assert!(dispatcher.lookups().is_empty());
    dispatcher.check_crate(&vec![]);
    assert!(dispatcher.check_expr(&digits(false)).is_empty());
    let unset = Dispatcher::new(vec![], None);
    assert_eq!(unset.check_expr(&digits(true)).len(), 1);
}
