//! Aggregates that cross a C boundary need a declared layout.
//!
//! A boundary is a function defined with an explicit C calling convention,
//! or a foreign block of the C calling convention. Each parameter type of a
//! boundary is stripped of its pointers and references; where an aggregate
//! is left and its definition declares no layout, the rule reports at that
//! definition.

use crate::finding::{views, Finding, FindingView, Lint};
use crate::hir::{Abi, AdtDef, ForeignItem, ForeignItemKind, Item, ItemKind, ReprOptions, Ty};
use crate::symbol::Span;
use crate::text::{
    chars_of, contains, find, find_between, lemma_contains_iff_found, lemma_find_from_is_first,
};
use vstd::prelude::*;

verus! {

/// One surface across which calls enter or leave the program.
pub struct ForeignBoundary {
    /// The parameter types of the surface, in source order. For a foreign
    /// block these are the parameters of all its function declarations.
    pub params: Seq<Ty>,
    /// Whether the surface declares foreign functions (a foreign block)
    /// rather than defining one for foreign callers.
    pub inbound: bool,
    /// Where the surface stands.
    pub span: Span,
}

/// The layout declared by `repr` is one that a boundary accepts. A foreign
/// block also accepts a SIMD layout; a function definition does not.
pub open spec fn has_layout(repr: ReprOptions, inbound: bool) -> bool {
    repr.packed || repr.transparent || repr.c || (inbound && repr.simd) || repr.aligned
}

/// The signature text places `extern "C"` before its first `fn`.
pub open spec fn declares_c_abi(text: Seq<char>) -> bool {
    match find(text, "fn"@) {
        Some(at) => contains(text.subrange(0, at), "extern \"C\""@),
        None => false,
    }
}

/// The parameter types that an entry of a foreign block declares: those of
/// a function declaration, none for any other entry.
pub open spec fn declared_inputs(entry: Option<ForeignItem>) -> Seq<Ty> {
    match entry {
        Some(ForeignItem { kind: ForeignItemKind::Fn { inputs }, .. }) => inputs@,
        _ => Seq::empty(),
    }
}

/// `declared_inputs` as a function value.
pub open spec fn inputs_of() -> spec_fn(Option<ForeignItem>) -> Seq<Ty> {
    |entry: Option<ForeignItem>| declared_inputs(entry)
}

impl ForeignBoundary {
    /// The boundary that `item` forms, if it forms one.
    pub open spec fn of(item: Item) -> Option<ForeignBoundary> {
        match item.kind {
            ItemKind::Fn(sig) => match sig.text {
                Some(text) if declares_c_abi(text@) => Some(
                    ForeignBoundary { params: sig.inputs@, inbound: false, span: item.span },
                ),
                _ => None,
            },
            ItemKind::ForeignMod { abi: Abi::C { .. }, items } => Some(
                ForeignBoundary {
                    params: items@.flat_map(inputs_of()),
                    inbound: true,
                    span: item.span,
                },
            ),
            _ => None,
        }
    }

    /// The findings of the boundary: one for each parameter that reaches an
    /// aggregate without an accepted layout, in parameter order.
    pub open spec fn findings(self) -> Seq<FindingView> {
        self.params.filter_map(reporter(self.inbound))
    }
}

/// What the rule reports for one parameter type of a boundary.
pub open spec fn param_finding(ty: Ty, inbound: bool) -> Option<FindingView> {
    match ty.peeled() {
        Ty::Adt(adt) => if has_layout(adt.repr, inbound) {
            None
        } else {
            Some(Finding::plain(Lint::ExternWithoutRepr, adt.span))
        },
        _ => None,
    }
}

/// `param_finding` for a fixed kind of boundary.
pub open spec fn reporter(inbound: bool) -> spec_fn(Ty) -> Option<FindingView> {
    |ty: Ty| param_finding(ty, inbound)
}

/// What the rule reports for `item`.
pub open spec fn layout_findings(item: Item) -> Seq<FindingView> {
    match ForeignBoundary::of(item) {
        Some(boundary) => boundary.findings(),
        None => Seq::empty(),
    }
}

/// Reporting on a concatenation reports on each part in turn.
pub proof fn lemma_findings_concat(head: Seq<Ty>, tail: Seq<Ty>, inbound: bool)
    ensures
        (head + tail).filter_map(reporter(inbound)) == head.filter_map(reporter(inbound))
            + tail.filter_map(reporter(inbound)),
    decreases tail.len(),
{
    if tail.len() > 0 {
        assert((head + tail).drop_last() =~= head + tail.drop_last());
        lemma_findings_concat(head, tail.drop_last(), inbound);
    }
}

/// Among `params`, every aggregate defined at the span of `adt` is `adt`:
/// one place of definition stands for one aggregate and one layout.
pub open spec fn defined_once(params: Seq<Ty>, adt: AdtDef) -> bool {
    forall|i: int|
        0 <= i < params.len() ==> (#[trigger] params[i].peeled() matches Ty::Adt(other)
            ==> other.span == adt.span ==> other == adt)
}

/// An aggregate whose declared layout the boundary accepts is not reported,
/// whether the parameter names it directly or behind pointers and
/// references.
pub proof fn lemma_declared_layout_not_reported(ty: Ty, adt: AdtDef, inbound: bool)
    requires
        ty.peeled() == Ty::Adt(adt),
        adt.repr.packed || adt.repr.transparent || adt.repr.c || adt.repr.aligned,
    ensures
        param_finding(ty, inbound) is None,
{
}

/// An aggregate whose declared layout the boundary does not accept is
/// reported once, at its definition, whether the parameter names it directly
/// or behind pointers and references.
pub proof fn lemma_missing_layout_reported(ty: Ty, adt: AdtDef, inbound: bool)
    requires
        ty.peeled() == Ty::Adt(adt),
        !has_layout(adt.repr, inbound),
    ensures
        param_finding(ty, inbound) == Some(Finding::plain(Lint::ExternWithoutRepr, adt.span)),
{
}

/// The parameter type `ty` reaches an aggregate without an accepted layout,
/// and `finding` is the report on it.
pub open spec fn reported_for(ty: Ty, inbound: bool, finding: FindingView) -> bool {
    &&& param_finding(ty, inbound) == Some(finding)
    &&& ty.peeled() matches Ty::Adt(adt) && !has_layout(adt.repr, inbound)
}

/// Every finding of an item is the report on one of its boundary's
/// parameters, and that parameter reaches an aggregate without an accepted
/// layout.
pub proof fn lemma_finding_has_cause(item: Item, k: int)
    requires
        0 <= k < layout_findings(item).len(),
    ensures
        ForeignBoundary::of(item) is Some,
        exists|i: int|
            0 <= i < ForeignBoundary::of(item)->0.params.len() && reported_for(
                #[trigger] ForeignBoundary::of(item)->0.params[i],
                ForeignBoundary::of(item)->0.inbound,
                layout_findings(item)[k],
            ),
{
    let boundary = ForeignBoundary::of(item)->0;
    let report = reporter(boundary.inbound);
    let finding = layout_findings(item)[k];
    boundary.params.lemma_filter_map_contains(report, finding);
    let ty = choose|ty: Ty| #[trigger] boundary.params.contains(ty) && report(ty) == Some(finding);
    let i = choose|i: int| 0 <= i < boundary.params.len() && boundary.params[i] == ty;
}

/// Layout monotonicity. Where an aggregate declares a packed, transparent,
/// C or aligned layout, no finding of an item points at its definition.
pub proof fn lemma_layout_monotonic(item: Item, adt: AdtDef)
    requires
        adt.repr.packed || adt.repr.transparent || adt.repr.c || adt.repr.aligned,
        ForeignBoundary::of(item) matches Some(boundary) ==> defined_once(boundary.params, adt),
    ensures
        forall|k: int|
            0 <= k < layout_findings(item).len() ==> (#[trigger] layout_findings(item)[k]).span
                != adt.span,
{
    assert forall|k: int| 0 <= k < layout_findings(item).len() implies (
    #[trigger] layout_findings(item)[k]).span != adt.span by {
        lemma_finding_has_cause(item, k);
    }
}

/// The number of findings among `findings` that point at `span`.
pub open spec fn reports_at(findings: Seq<FindingView>, span: Span) -> nat {
    findings.filter(|f: FindingView| f.span == span).len()
}

/// The number of parameters among `params` that reach the aggregate `adt`.
pub open spec fn occurrences(params: Seq<Ty>, adt: AdtDef) -> nat {
    params.filter(|ty: Ty| ty.peeled() == Ty::Adt(adt)).len()
}

/// Layout completeness. Where an aggregate declares no layout that the
/// boundary accepts, the item's findings point at its definition exactly as
/// often as the aggregate occurs among the boundary's parameters.
pub proof fn lemma_layout_complete(item: Item, adt: AdtDef)
    requires
        ForeignBoundary::of(item) matches Some(boundary) && !has_layout(
            adt.repr,
            boundary.inbound,
        ) && defined_once(boundary.params, adt),
    ensures
        reports_at(layout_findings(item), adt.span) == occurrences(
            ForeignBoundary::of(item)->0.params,
            adt,
        ),
{
    let boundary = ForeignBoundary::of(item)->0;
    lemma_reports_match_occurrences(boundary.params, boundary.inbound, adt);
}

proof fn lemma_reports_match_occurrences(params: Seq<Ty>, inbound: bool, adt: AdtDef)
    requires
        !has_layout(adt.repr, inbound),
        defined_once(params, adt),
    ensures
        reports_at(params.filter_map(reporter(inbound)), adt.span) == occurrences(params, adt),
    decreases params.len(),
{
    reveal(Seq::filter);
    if params.len() > 0 {
        let rest = params.drop_last();
        let last = params.last();
        assert(defined_once(rest, adt));
        lemma_reports_match_occurrences(rest, inbound, adt);
        match param_finding(last, inbound) {
            Some(finding) => {
                let reported = rest.filter_map(reporter(inbound));
                assert((reported + seq![finding]).drop_last() =~= reported);
            },
            None => {},
        }
    }
}

/// Whether the signature text places `extern "C"` before its first `fn`.
pub fn is_extern_c(text: &str) -> (tagged: bool)
    ensures
        tagged == declares_c_abi(text@),
{
    let chars = chars_of(text);
    let keyword = chars_of("fn");
    let tag = chars_of("extern \"C\"");
    proof {
        assert(chars@.subrange(0, chars.len() as int) =~= text@);
    }
    match find_between(&chars, &keyword, 0, chars.len()) {
        Some(at) => {
            proof {
                lemma_find_from_is_first(text@, keyword@, 0);
                lemma_contains_iff_found(text@.subrange(0, at as int), tag@);
            }
            find_between(&chars, &tag, 0, at).is_some()
        },
        None => false,
    }
}

/// Reports on the parameter types `inputs` of a boundary, appending to
/// `findings`.
fn check_inputs(inputs: &Vec<Ty>, inbound: bool, findings: &mut Vec<Finding>)
    ensures
        views(final(findings)@) == views(old(findings)@) + inputs@.filter_map(reporter(inbound)),
{
    let ghost before = views(findings@);
    let mut i: usize = 0;
    while i < inputs.len()
        invariant
            i <= inputs.len(),
            views(findings@) == before + inputs@.take(i as int).filter_map(reporter(inbound)),
        decreases inputs.len() - i,
    {
        let ghost reported = views(findings@);
        proof {
            inputs@.lemma_filter_map_take_succ(reporter(inbound), i as int);
        }
        match inputs[i].walk_ptrs() {
            Ty::Adt(adt) => {
                let repr = adt.repr;
                let accepted = repr.packed || repr.transparent || repr.c || (inbound && repr.simd)
                    || repr.aligned;
                if !accepted {
                    findings.push(Finding::new(Lint::ExternWithoutRepr, adt.span));
                    assert(views(findings@) =~= reported + seq![
                        Finding::plain(Lint::ExternWithoutRepr, adt.span),
                    ]);
                }
            },
            _ => {},
        }
        i += 1;
    }
    assert(inputs@.take(inputs.len() as int) =~= inputs@);
}

/// The rule on layouts at C boundaries.
#[derive(Clone, Copy, Debug, Default)]
pub struct ExternWithoutRepr;

impl ExternWithoutRepr {
    /// Examines one item and returns what the rule reports for it: nothing
    /// unless the item is a boundary, and then one finding for each
    /// parameter that reaches an aggregate without an accepted layout.
    pub fn check_item(&self, item: &Item) -> (findings: Vec<Finding>)
        ensures
            views(findings@) == layout_findings(*item),
    {
        let mut findings: Vec<Finding> = Vec::new();
        match &item.kind {
            ItemKind::Fn(sig) => {
                let tagged = match &sig.text {
                    Some(text) => is_extern_c(text.as_str()),
                    None => false,
                };
                if tagged {
                    check_inputs(&sig.inputs, false, &mut findings);
                }
            },
            ItemKind::ForeignMod { abi, items } => {
                if let Abi::C { .. } = abi {
                    let mut i: usize = 0;
                    assert(items@.take(0).flat_map(inputs_of()) =~= Seq::empty());
                    while i < items.len()
                        invariant
                            i <= items.len(),
                            views(findings@) == items@.take(i as int).flat_map(
                                inputs_of(),
                            ).filter_map(reporter(true)),
                        decreases items.len() - i,
                    {
                        proof {
                            items@.lemma_flat_map_take_append(inputs_of(), i as int);
                            lemma_findings_concat(
                                items@.take(i as int).flat_map(inputs_of()),
                                declared_inputs(items@[i as int]),
                                true,
                            );
                        }
                        if let Some(entry) = &items[i] {
                            if let ForeignItemKind::Fn { inputs } = &entry.kind {
                                check_inputs(inputs, true, &mut findings);
                            }
                        }
                        i += 1;
                    }
                    assert(items@.take(items.len() as int) =~= items@);
                }
            },
            ItemKind::Other => {},
        }
        findings
    }
}

} // verus!
