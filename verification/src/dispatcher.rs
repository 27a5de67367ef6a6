//! The entry points that the host calls: once when the analysis of a
//! program starts, once for each item and once for each expression.

use crate::extern_without_repr::{layout_findings, ExternWithoutRepr};
use crate::finding::{views, Finding, FindingView};
use crate::guidelines::{dangerous_call, lookup_path, resolved, GuidelineLints};
use crate::hir::{Expr, Item};
use crate::manual_is_ascii_check::{ascii_check, ManualIsAsciiCheck};
use crate::msrv::Version;
use crate::symbol::DefId;
use crate::text::texts;
use vstd::prelude::*;

verus! {

/// What the rules on expressions report for `expr`: the finding of the rule
/// on calls, then that of the rule on range patterns.
pub open spec fn expr_findings(dangerous: Set<DefId>, msrv: Option<Version>, expr: Expr) -> Seq<
    FindingView,
> {
    let calls = match dangerous_call(dangerous, expr) {
        Some(finding) => seq![finding],
        None => Seq::empty(),
    };
    let ranges = match ascii_check(msrv, expr) {
        Some(finding) => seq![finding],
        None => Seq::empty(),
    };
    calls + ranges
}

/// No expression is reported by both rules on expressions.
pub proof fn lemma_at_most_one_finding(dangerous: Set<DefId>, msrv: Option<Version>, expr: Expr)
    ensures
        expr_findings(dangerous, msrv, expr).len() <= 1,
{
}

/// All rules, behind the entry points of the host.
#[derive(Clone, Debug)]
pub struct Dispatcher {
    layout: ExternWithoutRepr,
    calls: GuidelineLints,
    ranges: ManualIsAsciiCheck,
}

impl Dispatcher {
    /// The configured names of dangerous functions, in order.
    pub closed spec fn names(&self) -> Seq<Seq<char>> {
        self.calls.names()
    }

    /// The definitions that count as dangerous.
    pub closed spec fn dangerous(&self) -> Set<DefId> {
        self.calls.dangerous()
    }

    /// The configured oldest compiler version.
    pub closed spec fn msrv(&self) -> Option<Version> {
        self.ranges.spec_msrv()
    }

    pub closed spec fn wf(&self) -> bool {
        self.calls.wf()
    }

    /// The rules under the configuration `mem_uns_fns` and `msrv`.
    pub fn new(mem_uns_fns: Vec<String>, msrv: Option<Version>) -> (dispatcher: Self)
        ensures
            dispatcher.wf(),
            dispatcher.names() == texts(mem_uns_fns@),
            dispatcher.dangerous() == Set::<DefId>::empty(),
            dispatcher.msrv() == msrv,
    {
        Self {
            layout: ExternWithoutRepr,
            calls: GuidelineLints::new(mem_uns_fns),
            ranges: ManualIsAsciiCheck::new(msrv),
        }
    }

    /// The paths that the host is to look up before `check_crate`, one for
    /// each configured name.
    pub fn lookups(&self) -> (paths: Vec<Vec<String>>)
        ensures
            paths@.len() == self.names().len(),
            forall|i: int|
                0 <= i < paths@.len() ==> texts(#[trigger] paths@[i]@) == lookup_path(
                    self.names()[i],
                ),
    {
        self.calls.lookups()
    }

    /// The start of the analysis of a program: builds the dangerous set
    /// from what the host found at the looked up paths.
    pub fn check_crate(&mut self, found: &Vec<Vec<DefId>>)
        requires
            old(self).wf(),
        ensures
            final(self).wf(),
            final(self).names() == old(self).names(),
            final(self).msrv() == old(self).msrv(),
            final(self).dangerous() == old(self).dangerous().union(
                resolved(old(self).names(), found@),
            ),
    {
        self.calls.check_crate(found);
    }

    /// One item: the findings of the rule on layouts.
    pub fn check_item(&self, item: &Item) -> (findings: Vec<Finding>)
        ensures
            views(findings@) == layout_findings(*item),
    {
        self.layout.check_item(item)
    }

    /// One expression: the findings of the rules on calls and on range
    /// patterns.
    pub fn check_expr(&self, expr: &Expr) -> (findings: Vec<Finding>)
        ensures
            views(findings@) == expr_findings(self.dangerous(), self.msrv(), *expr),
    {
        let mut findings: Vec<Finding> = Vec::new();
        if let Some(finding) = self.calls.check_expr(expr) {
            findings.push(finding);
        }
        if let Some(finding) = self.ranges.check_expr(expr) {
            findings.push(finding);
        }
        findings
    }
}

} // verus!
