//! Calls into functions that are configured as dangerous.
//!
//! The configuration is a list of function names. A name with `::` in it is
//! a path, and stands for every definition that the program's symbol table
//! holds at that path. A plain name stands for the function of that name in
//! `libc`, if there is one. Names that resolve to nothing are passed over.
//! Every call whose callee is one of the resolved definitions is reported.

use crate::finding::{view_of, Finding, FindingView, Lint};
use crate::hir::{Expr, ExprKind};
use crate::symbol::{DefId, DefIdSet};
use crate::text::{contains, split, split_text, str_contains, texts};
use vstd::prelude::*;

verus! {

/// The name is a path: it holds the separator `::`.
pub open spec fn is_path(name: Seq<char>) -> bool {
    contains(name, "::"@)
}

/// The path under which the symbol table is asked for a configured name:
/// the segments of a path, or the plain name under `libc`.
pub open spec fn lookup_path(name: Seq<char>) -> Seq<Seq<char>> {
    if is_path(name) {
        split(name, "::"@)
    } else {
        seq!["libc"@, name]
    }
}

/// The definitions that a configured name stands for, given what the symbol
/// table holds at the name's lookup path, in the table's order: all of them
/// for a path, the first for a plain name.
pub open spec fn resolved_by(name: Seq<char>, found: Seq<DefId>) -> Set<DefId> {
    if is_path(name) {
        found.to_set()
    } else if found.len() > 0 {
        set![found[0]]
    } else {
        Set::empty()
    }
}

/// The definitions that the first `count` configured names stand for.
/// `found[i]` is what the symbol table holds at the lookup path of
/// `names[i]`; a name without an entry in `found` stands for nothing.
pub open spec fn resolved_among(names: Seq<Seq<char>>, found: Seq<Vec<DefId>>, count: int) -> Set<
    DefId,
> {
    Set::new(
        |id: DefId|
            exists|i: int|
                0 <= i < count && i < names.len() && i < found.len() && #[trigger] resolved_by(
                    names[i],
                    found[i]@,
                ).contains(id),
    )
}

/// The definitions that the configured names stand for.
pub open spec fn resolved(names: Seq<Seq<char>>, found: Seq<Vec<DefId>>) -> Set<DefId> {
    resolved_among(names, found, names.len() as int)
}

/// How a call relates to the dangerous set.
#[derive(Clone, Copy, Debug, PartialEq, Eq, Structural)]
pub enum CallKind {
    /// The expression is no call.
    NotACall,
    /// The callee names no definition.
    Unresolved,
    /// The callee is a definition outside the set.
    Unlisted,
    /// The callee is a definition in the set.
    Dangerous,
}

/// How `expr` relates to the set `dangerous`.
pub open spec fn call_kind(dangerous: Set<DefId>, expr: Expr) -> CallKind {
    match expr.kind {
        ExprKind::Call { callee: Some(id) } => if dangerous.contains(id) {
            CallKind::Dangerous
        } else {
            CallKind::Unlisted
        },
        ExprKind::Call { callee: None } => CallKind::Unresolved,
        _ => CallKind::NotACall,
    }
}

/// What the rule reports for `expr`: a finding at the expression, without
/// a suggestion, exactly for a call whose callee is in the set.
pub open spec fn dangerous_call(dangerous: Set<DefId>, expr: Expr) -> Option<FindingView> {
    if call_kind(dangerous, expr) == CallKind::Dangerous {
        Some(Finding::plain(Lint::MemUnsafeFunctions, expr.span))
    } else {
        None
    }
}

/// The path under which to look for the function `fn_name` of `libc`.
pub fn libc_path(fn_name: &str) -> (path: Vec<String>)
    ensures
        texts(path@) == seq!["libc"@, fn_name@],
{
    let mut path: Vec<String> = Vec::new();
    path.push("libc".to_owned());
    path.push(fn_name.to_owned());
    path
}

/// The definition of a function of `libc`, given what the symbol table
/// holds at its path: the first entry, if there is one.
pub fn libc_fn_def_id(found: &Vec<DefId>) -> (id: Option<DefId>)
    ensures
        match id {
            Some(id) => found@.len() > 0 && id == found@[0],
            None => found@.len() == 0,
        },
{
    if found.len() > 0 {
        Some(found[0])
    } else {
        None
    }
}

/// The rules on calls, with the names they are configured with and the
/// definitions that those names were resolved to.
#[derive(Clone, Debug)]
pub struct GuidelineLints {
    mem_uns_fns: Vec<String>,
    mem_uns_fns_ty_ids: DefIdSet,
}

impl GuidelineLints {
    /// The configured names, in order.
    pub closed spec fn names(&self) -> Seq<Seq<char>> {
        texts(self.mem_uns_fns@)
    }

    /// The definitions that count as dangerous.
    pub closed spec fn dangerous(&self) -> Set<DefId> {
        self.mem_uns_fns_ty_ids@
    }

    /// The set of definitions is well formed.
    pub closed spec fn wf(&self) -> bool {
        self.mem_uns_fns_ty_ids.wf()
    }

    /// Rules configured with the names `mem_uns_fns`; nothing is resolved
    /// yet.
    pub fn new(mem_uns_fns: Vec<String>) -> (lints: Self)
        ensures
            lints.wf(),
            lints.names() == texts(mem_uns_fns@),
            lints.dangerous() == Set::<DefId>::empty(),
    {
        Self { mem_uns_fns, mem_uns_fns_ty_ids: DefIdSet::new() }
    }

    /// The configured names.
    pub fn mem_uns_fns(&self) -> (names: &Vec<String>)
        ensures
            texts(names@) == self.names(),
    {
        &self.mem_uns_fns
    }

    /// The dangerous set.
    pub fn mem_uns_fns_ty_ids(&self) -> (ids: &DefIdSet)
        ensures
            ids@ == self.dangerous(),
            ids.wf() == self.wf(),
    {
        &self.mem_uns_fns_ty_ids
    }

    /// The paths to look up in the symbol table, one for each configured
    /// name, in order.
    pub fn lookups(&self) -> (paths: Vec<Vec<String>>)
        ensures
            paths@.len() == self.names().len(),
            forall|i: int|
                0 <= i < paths@.len() ==> texts(#[trigger] paths@[i]@) == lookup_path(
                    self.names()[i],
                ),
    {
        let mut paths: Vec<Vec<String>> = Vec::new();
        let mut i: usize = 0;
        while i < self.mem_uns_fns.len()
            invariant
                i <= self.mem_uns_fns.len(),
                paths@.len() == i,
                forall|j: int|
                    0 <= j < i ==> texts(#[trigger] paths@[j]@) == lookup_path(self.names()[j]),
            decreases self.mem_uns_fns.len() - i,
        {
            let name = self.mem_uns_fns[i].as_str();
            let path = if str_contains(name, "::") {
                split_text(name, "::")
            } else {
                libc_path(name)
            };
            paths.push(path);
            i += 1;
        }
        paths
    }

    /// Resolves the configured names. `found[i]` is what the symbol table
    /// holds at the `i`-th of the paths that `lookups` returns, in the
    /// table's order. Every definition that a name stands for joins the
    /// dangerous set; a name that stands for none adds nothing.
    pub fn check_crate(&mut self, found: &Vec<Vec<DefId>>)
        requires
            old(self).wf(),
        ensures
            final(self).wf(),
            final(self).names() == old(self).names(),
            final(self).dangerous() == old(self).dangerous().union(
                resolved(old(self).names(), found@),
            ),
    {
        let ghost names = self.names();
        let ghost before = self.dangerous();
        let mut i: usize = 0;
        while i < self.mem_uns_fns.len() && i < found.len()
            invariant
                self.wf(),
                self.names() == names,
                names.len() == self.mem_uns_fns.len(),
                i <= self.mem_uns_fns.len(),
                i <= found.len(),
                self.dangerous() == before.union(resolved_among(names, found@, i as int)),
            decreases self.mem_uns_fns.len() - i,
        {
            let ghost sofar = self.dangerous();
            let ids = &found[i];
            if str_contains(self.mem_uns_fns[i].as_str(), "::") {
                let mut k: usize = 0;
                while k < ids.len()
                    invariant
                        self.wf(),
                        self.names() == names,
                        names.len() == self.mem_uns_fns.len(),
                        i < self.mem_uns_fns.len(),
                        k <= ids.len(),
                        self.dangerous() == sofar.union(ids@.take(k as int).to_set()),
                    decreases ids.len() - k,
                {
                    self.mem_uns_fns_ty_ids.insert(ids[k]);
                    assert(ids@.take(k + 1) =~= ids@.take(k as int).push(ids@[k as int]));
                    assert(ids@.take(k + 1).to_set() =~= ids@.take(k as int).to_set().insert(
                        ids@[k as int],
                    )) by {
                        ids@.take(k as int).lemma_push_to_set_commute(ids@[k as int]);
                    }
                    k += 1;
                }
                assert(ids@.take(ids.len() as int) =~= ids@);
            } else if let Some(id) = libc_fn_def_id(ids) {
                self.mem_uns_fns_ty_ids.insert(id);
            }
            assert(self.dangerous() =~= before.union(resolved_among(names, found@, i + 1))) by {
                lemma_resolved_step(names, found@, i as int);
            }
            i += 1;
        }
    }

    /// How `expr` relates to the dangerous set.
    pub fn classify(&self, expr: &Expr) -> (kind: CallKind)
        ensures
            kind == call_kind(self.dangerous(), *expr),
    {
        match &expr.kind {
            ExprKind::Call { callee: Some(id) } => if self.mem_uns_fns_ty_ids.contains(*id) {
                CallKind::Dangerous
            } else {
                CallKind::Unlisted
            },
            ExprKind::Call { callee: None } => CallKind::Unresolved,
            _ => CallKind::NotACall,
        }
    }

    /// Examines one expression and returns what the rule reports for it: a
    /// finding at the expression if it is a call whose callee is in the
    /// dangerous set, and nothing otherwise.
    pub fn check_expr(&self, expr: &Expr) -> (finding: Option<Finding>)
        ensures
            view_of(finding) == dangerous_call(self.dangerous(), *expr),
    {
        match self.classify(expr) {
            CallKind::Dangerous => Some(Finding::new(Lint::MemUnsafeFunctions, expr.span)),
            _ => None,
        }
    }
}

impl Default for GuidelineLints {
    /// Rules without a configured name.
    fn default() -> (lints: Self)
        ensures
            lints.wf(),
            lints.names() == Seq::<Seq<char>>::empty(),
            lints.dangerous() == Set::<DefId>::empty(),
    {
        let lints = GuidelineLints::new(Vec::new());
        lints
    }
}

/// One more name adds what that name stands for.
proof fn lemma_resolved_step(names: Seq<Seq<char>>, found: Seq<Vec<DefId>>, i: int)
    requires
        0 <= i < names.len(),
        i < found.len(),
    ensures
        resolved_among(names, found, i + 1) == resolved_among(names, found, i).union(
            resolved_by(names[i], found[i]@),
        ),
{
}

/// A name for which the symbol table holds nothing stands for nothing.
pub proof fn lemma_unresolved_adds_nothing(name: Seq<char>)
    ensures
        resolved_by(name, Seq::<DefId>::empty()) == Set::<DefId>::empty(),
{
}

/// Resolution fails open. Of a path that the symbol table does not hold
/// and a plain name that `libc` holds, in either order, only the function
/// of `libc` is resolved.
pub proof fn lemma_fail_open(
    path: Seq<char>,
    plain: Seq<char>,
    nothing: Vec<DefId>,
    aliases: Vec<DefId>,
)
    requires
        is_path(path),
        !is_path(plain),
        nothing@.len() == 0,
        aliases@.len() > 0,
    ensures
        resolved(seq![path, plain], seq![nothing, aliases]) == set![aliases@[0]],
        resolved(seq![plain, path], seq![aliases, nothing]) == set![aliases@[0]],
{
    lemma_unresolved_adds_nothing(path);
    let names = seq![path, plain];
    let found = seq![nothing, aliases];
    assert(resolved_by(names[1], found[1]@).contains(aliases@[0]));
}

/// Resolving the same names against the same symbol table a second time
/// changes nothing.
pub proof fn lemma_resolution_idempotent(
    dangerous: Set<DefId>,
    names: Seq<Seq<char>>,
    found: Seq<Vec<DefId>>,
)
    ensures
        dangerous.union(resolved(names, found)).union(resolved(names, found)) == dangerous.union(
            resolved(names, found),
        ),
{
}

/// Call precision. Of two calls that differ only in the callee, the one
/// whose callee is in the dangerous set is reported at its span, and the
/// one whose callee is outside the set is not reported.
pub proof fn lemma_call_precision(
    dangerous: Set<DefId>,
    call: Expr,
    listed: DefId,
    unlisted: DefId,
)
    requires
        dangerous.contains(listed),
        !dangerous.contains(unlisted),
    ensures
        dangerous_call(
            dangerous,
            Expr { kind: ExprKind::Call { callee: Some(listed) }, ..call },
        ) == Some(Finding::plain(Lint::MemUnsafeFunctions, call.span)),
        dangerous_call(dangerous, Expr { kind: ExprKind::Call { callee: Some(unlisted) }, ..call })
            is None,
{
}

} // verus!
