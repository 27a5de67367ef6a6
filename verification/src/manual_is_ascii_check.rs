//! A `matches!` over a range of ASCII letters or digits says what a
//! predicate of the standard library says by name.
//!
//! The rule looks at selectors that a `matches!` invocation expands to. It
//! classifies the single pattern of the selector and, for the ranges
//! `'a'..='z'`, `'A'..='Z'`, `'0'..='9'` (of characters or of bytes) and for
//! the two letter ranges joined by `|`, suggests the predicate on the tested
//! expression.

use crate::finding::{view_of, Applicability, Finding, FindingView, Lint, Suggestion, SuggestionView};
use crate::hir::{Arm, Expr, ExprKind, LitKind, MacroCall, PatExpr, PatKind, RangeEnd, Scrutinee};
use crate::msrv::{meets_msrv, msrv_allows, Capability, Version};
use crate::text::same_text;
use vstd::prelude::*;
use vstd::string::StringExecFns;

verus! {

/// The set of characters that a pattern stands for, as far as the rule
/// tells sets apart.
#[derive(Clone, Copy, Debug, PartialEq, Eq, Structural)]
pub enum CharRange {
    /// `'a'..='z'` or `b'a'..=b'z'`.
    LowerChar,
    /// `'A'..='Z'` or `b'A'..=b'Z'`.
    UpperChar,
    /// The lower and the upper range joined by `|`.
    FullChar,
    /// `'0'..='9'` or `b'0'..=b'9'`.
    Digit,
    /// Anything else.
    Otherwise,
}

/// The byte `b'a'`.
pub const BYTE_LOWER_A: u8 = 97;

/// The byte `b'z'`.
pub const BYTE_LOWER_Z: u8 = 122;

/// The byte `b'A'`.
pub const BYTE_UPPER_A: u8 = 65;

/// The byte `b'Z'`.
pub const BYTE_UPPER_Z: u8 = 90;

/// The byte `b'0'`.
pub const BYTE_DIGIT_0: u8 = 48;

/// The byte `b'9'`.
pub const BYTE_DIGIT_9: u8 = 57;

/// The endpoints are the literals `lo` and `hi`, both as characters or both
/// as bytes.
pub open spec fn literal_pair(start: LitKind, end: LitKind, lo: char, hi: char) -> bool {
    ||| start == LitKind::Char(lo) && end == LitKind::Char(hi)
    ||| start == LitKind::Byte(lo as u8) && end == LitKind::Byte(hi as u8)
}

/// The class of the inclusive range from `start` to `end`.
pub open spec fn range_class(start: PatExpr, end: PatExpr) -> CharRange {
    match (start, end) {
        (PatExpr::Lit(start), PatExpr::Lit(end)) => if literal_pair(start, end, 'a', 'z') {
            CharRange::LowerChar
        } else if literal_pair(start, end, 'A', 'Z') {
            CharRange::UpperChar
        } else if literal_pair(start, end, '0', '9') {
            CharRange::Digit
        } else {
            CharRange::Otherwise
        },
        _ => CharRange::Otherwise,
    }
}

/// The class of a pattern that is an inclusive range with both endpoints;
/// `Otherwise` for every other pattern.
pub open spec fn inclusive_range_class(kind: PatKind) -> CharRange {
    match kind {
        PatKind::Range(Some(start), Some(end), RangeEnd::Included) => range_class(start, end),
        _ => CharRange::Otherwise,
    }
}

/// The class of a pattern: that of an inclusive range, or `FullChar` for
/// exactly two alternatives of which one is the lower and one the upper
/// range, in either order.
pub open spec fn pat_class(kind: PatKind) -> CharRange {
    match kind {
        PatKind::Or(pats) => {
            if pats@.len() == 2 && {
                let first = inclusive_range_class(pats@[0].kind);
                let second = inclusive_range_class(pats@[1].kind);
                ||| first == CharRange::UpperChar && second == CharRange::LowerChar
                ||| first == CharRange::LowerChar && second == CharRange::UpperChar
            } {
                CharRange::FullChar
            } else {
                CharRange::Otherwise
            }
        },
        _ => inclusive_range_class(kind),
    }
}

/// The arms that were written where the selector's macro is invoked, in
/// order.
pub open spec fn written_arms(arms: Seq<Arm>) -> Seq<Arm> {
    arms.filter(|arm: Arm| !arm.from_expansion)
}

/// The class of a selector: that of its pattern where a single arm was
/// written and has no guard, `Otherwise` where the arm has a guard or any
/// other number of arms was written.
pub open spec fn arms_class(arms: Seq<Arm>) -> CharRange {
    let written = written_arms(arms);
    if written.len() == 1 && !written[0].guarded {
        pat_class(written[0].pat.kind)
    } else {
        CharRange::Otherwise
    }
}

/// The invoked macro is `matches!`.
pub open spec fn names_matches(call: MacroCall) -> bool {
    call.diagnostic_name matches Some(name) && name@ == "matches_macro"@
}

impl CharRange {
    /// The predicate that tests membership in the class.
    pub open spec fn spec_predicate(self) -> Option<Seq<char>> {
        match self {
            CharRange::UpperChar => Some("is_ascii_uppercase"@),
            CharRange::LowerChar => Some("is_ascii_lowercase"@),
            CharRange::FullChar => Some("is_ascii_alphabetic"@),
            CharRange::Digit => Some("is_ascii_digit"@),
            CharRange::Otherwise => None,
        }
    }

    /// The predicate that tests membership in the class, if there is one.
    pub fn predicate(self) -> (name: Option<&'static str>)
        ensures
            match name {
                Some(name) => self.spec_predicate() == Some(name@),
                None => self.spec_predicate() is None,
            },
    {
        match self {
            CharRange::UpperChar => Some("is_ascii_uppercase"),
            CharRange::LowerChar => Some("is_ascii_lowercase"),
            CharRange::FullChar => Some("is_ascii_alphabetic"),
            CharRange::Digit => Some("is_ascii_digit"),
            CharRange::Otherwise => None,
        }
    }
}

/// The text that stands for the tested expression in a suggestion: its
/// source text, or `..` where that cannot be recovered.
pub open spec fn receiver_text(scrutinee: Scrutinee) -> Seq<char> {
    match scrutinee.text {
        Some(text) => text@,
        None => ".."@,
    }
}

/// The suggestion to call `predicate` on the tested expression. It can be
/// applied unattended exactly when the expression's text was recovered.
pub open spec fn suggestion_for(scrutinee: Scrutinee, predicate: Seq<char>) -> SuggestionView {
    SuggestionView {
        help: "try"@,
        replacement: receiver_text(scrutinee) + "."@ + predicate + "()"@,
        applicability: if scrutinee.text is Some {
            Applicability::MachineApplicable
        } else {
            Applicability::MaybeIncorrect
        },
    }
}

/// The rule may speak: the configured version allows the predicates, and
/// allows them at compile time if that is where the expression stands.
pub open spec fn gate_open(msrv: Option<Version>, in_constant: bool) -> bool {
    &&& msrv_allows(msrv, Capability::IsAsciiDigit)
    &&& in_constant ==> msrv_allows(msrv, Capability::IsAsciiDigitConst)
}

/// What the rule reports for `expr` under the configured version `msrv`.
pub open spec fn ascii_check(msrv: Option<Version>, expr: Expr) -> Option<FindingView> {
    match (expr.root_macro, expr.kind) {
        (Some(call), ExprKind::Match { scrutinee, arms }) => {
            if gate_open(msrv, expr.in_constant) && names_matches(call) {
                match arms_class(arms@).spec_predicate() {
                    Some(predicate) => Some(
                        FindingView {
                            lint: Lint::ManualIsAsciiCheck,
                            span: call.span,
                            message: Lint::ManualIsAsciiCheck.spec_message(),
                            suggestion: Some(suggestion_for(scrutinee, predicate)),
                        },
                    ),
                    None => None,
                }
            } else {
                None
            }
        },
        _ => None,
    }
}

/// The expression is a `matches!` invocation over one of the recognised
/// ranges.
pub open spec fn is_ascii_idiom(expr: Expr) -> bool {
    &&& expr.root_macro matches Some(call) && names_matches(call)
    &&& expr.kind matches ExprKind::Match { arms, .. } && arms_class(arms@).spec_predicate() is Some
}

/// The same selector with `text` as the recovered text of the tested
/// expression.
pub open spec fn with_receiver_text(expr: Expr, text: Option<String>) -> Expr {
    match expr.kind {
        ExprKind::Match { scrutinee, arms } => Expr {
            kind: ExprKind::Match { scrutinee: Scrutinee { span: scrutinee.span, text }, arms },
            ..expr
        },
        _ => expr,
    }
}

/// The rule reports exactly on the recognised invocations that stand where
/// the configured version allows the predicates.
pub proof fn lemma_reports_iff_allowed(msrv: Option<Version>, expr: Expr)
    ensures
        ascii_check(msrv, expr) is Some <==> gate_open(msrv, expr.in_constant) && is_ascii_idiom(
            expr,
        ),
{
}

/// Gating, for every expression. While the configured version does not
/// allow the predicates at all, the rule reports nothing, whatever the
/// pattern.
pub proof fn lemma_gate_closed(msrv: Option<Version>, expr: Expr)
    requires
        !msrv_allows(msrv, Capability::IsAsciiDigit),
    ensures
        ascii_check(msrv, expr) is None,
{
}

/// Gating, at compile time. Where the configured version allows the
/// predicates but not yet at compile time, a recognised invocation is
/// reported exactly when it does not stand in code evaluated at compile
/// time.
pub proof fn lemma_gate_constant(msrv: Option<Version>, expr: Expr)
    requires
        msrv_allows(msrv, Capability::IsAsciiDigit),
        !msrv_allows(msrv, Capability::IsAsciiDigitConst),
        is_ascii_idiom(expr),
    ensures
        ascii_check(msrv, Expr { in_constant: true, ..expr }) is None,
        ascii_check(msrv, Expr { in_constant: false, ..expr }) is Some,
{
}

/// Confidence. Of two reported selectors that differ only in whether the
/// text of the tested expression was recovered, the one with the text gets
/// a suggestion that can be applied unattended, the one without it a
/// suggestion for a reader; the findings agree in everything else but the
/// replacement text.
pub proof fn lemma_confidence(msrv: Option<Version>, expr: Expr, text: String)
    requires
        ascii_check(msrv, expr) is Some,
    ensures
        ({
            let exact = ascii_check(msrv, with_receiver_text(expr, Some(text)));
            let vague = ascii_check(msrv, with_receiver_text(expr, None));
            &&& exact is Some && exact->0.suggestion is Some
            &&& vague is Some && vague->0.suggestion is Some
            &&& exact->0.suggestion->0.applicability == Applicability::MachineApplicable
            &&& vague->0.suggestion->0.applicability == Applicability::MaybeIncorrect
            &&& exact->0.lint == vague->0.lint
            &&& exact->0.span == vague->0.span
            &&& exact->0.message == vague->0.message
            &&& exact->0.suggestion->0.help == vague->0.suggestion->0.help
        }),
{
}

/// Classifies the inclusive range from `start` to `end`.
pub fn check_range(start: &PatExpr, end: &PatExpr) -> (range: CharRange)
    ensures
        range == range_class(*start, *end),
{
    match (start, end) {
        (PatExpr::Lit(LitKind::Char(lo)), PatExpr::Lit(LitKind::Char(hi))) => {
            if *lo == 'a' && *hi == 'z' {
                CharRange::LowerChar
            } else if *lo == 'A' && *hi == 'Z' {
                CharRange::UpperChar
            } else if *lo == '0' && *hi == '9' {
                CharRange::Digit
            } else {
                CharRange::Otherwise
            }
        },
        (PatExpr::Lit(LitKind::Byte(lo)), PatExpr::Lit(LitKind::Byte(hi))) => {
            if *lo == BYTE_LOWER_A && *hi == BYTE_LOWER_Z {
                CharRange::LowerChar
            } else if *lo == BYTE_UPPER_A && *hi == BYTE_UPPER_Z {
                CharRange::UpperChar
            } else if *lo == BYTE_DIGIT_0 && *hi == BYTE_DIGIT_9 {
                CharRange::Digit
            } else {
                CharRange::Otherwise
            }
        },
        _ => CharRange::Otherwise,
    }
}

/// Classifies a pattern that may be an inclusive range.
fn check_inclusive_range(pat_kind: &PatKind) -> (range: CharRange)
    ensures
        range == inclusive_range_class(*pat_kind),
{
    match pat_kind {
        PatKind::Range(Some(start), Some(end), RangeEnd::Included) => check_range(start, end),
        _ => CharRange::Otherwise,
    }
}

/// Classifies a pattern.
pub fn check_pat(pat_kind: &PatKind) -> (range: CharRange)
    ensures
        range == pat_class(*pat_kind),
{
    match pat_kind {
        PatKind::Or(pats) => {
            if pats.len() == 2 {
                let first = check_inclusive_range(&pats[0].kind);
                let second = check_inclusive_range(&pats[1].kind);
                if (first == CharRange::UpperChar && second == CharRange::LowerChar) || (first
                    == CharRange::LowerChar && second == CharRange::UpperChar) {
                    CharRange::FullChar
                } else {
                    CharRange::Otherwise
                }
            } else {
                CharRange::Otherwise
            }
        },
        _ => check_inclusive_range(pat_kind),
    }
}

/// Classifies a selector by its written arms.
pub fn check_arms(arms: &Vec<Arm>) -> (range: CharRange)
    ensures
        range == arms_class(arms@),
{
    let mut first: usize = 0;
    let mut count: usize = 0;
    let mut i: usize = 0;
    assert(written_arms(arms@.take(0)).len() == 0) by {
        reveal(Seq::filter);
    }
    while i < arms.len()
        invariant
            i <= arms.len(),
            count <= 2,
            count < 2 ==> count == written_arms(arms@.take(i as int)).len(),
            count == 2 ==> written_arms(arms@.take(i as int)).len() >= 2,
            count >= 1 ==> first < i && written_arms(arms@.take(i as int))[0] == arms@[first as int],
        decreases arms.len() - i,
    {
        proof {
            reveal(Seq::filter);
            assert(arms@.take(i + 1).drop_last() =~= arms@.take(i as int));
        }
        if !arms[i].from_expansion {
            if count == 0 {
                first = i;
            }
            if count < 2 {
                count += 1;
            }
        }
        i += 1;
    }
    assert(arms@.take(arms.len() as int) =~= arms@);
    if count == 1 && !arms[first].guarded {
        check_pat(&arms[first].pat.kind)
    } else {
        CharRange::Otherwise
    }
}

/// Whether the invoked macro is `matches!`.
pub fn is_matches_macro(call: &MacroCall) -> (is_matches: bool)
    ensures
        is_matches == names_matches(*call),
{
    match &call.diagnostic_name {
        Some(name) => same_text(name.as_str(), "matches_macro"),
        None => false,
    }
}

/// The rule on range patterns that spell out an ASCII class.
#[derive(Clone, Copy, Debug)]
pub struct ManualIsAsciiCheck {
    msrv: Option<Version>,
}

impl ManualIsAsciiCheck {
    /// The oldest compiler version that the analysed code must build with,
    /// if one is configured.
    pub closed spec fn spec_msrv(&self) -> Option<Version> {
        self.msrv
    }

    #[must_use]
    pub fn new(msrv: Option<Version>) -> (check: Self)
        ensures
            check.spec_msrv() == msrv,
    {
        Self { msrv }
    }

    /// The configured oldest compiler version.
    pub fn msrv(&self) -> (msrv: Option<Version>)
        ensures
            msrv == self.spec_msrv(),
    {
        self.msrv
    }

    /// Examines one expression and returns what the rule reports for it.
    ///
    /// There is a finding exactly when the configured version allows the
    /// predicates where the expression stands, the expression comes from a
    /// `matches!` invocation, and one arm was written there, without a
    /// guard, whose pattern is one of the recognised ranges. The finding covers the
    /// invocation and suggests the predicate on the tested expression.
    pub fn check_expr(&self, expr: &Expr) -> (finding: Option<Finding>)
        ensures
            view_of(finding) == ascii_check(self.spec_msrv(), *expr),
    {
        if !meets_msrv(self.msrv, Capability::IsAsciiDigit) {
            return None;
        }
        if expr.in_constant && !meets_msrv(self.msrv, Capability::IsAsciiDigitConst) {
            return None;
        }
        let macro_call = match &expr.root_macro {
            Some(call) => call,
            None => {
                return None;
            },
        };
        if is_matches_macro(macro_call) {
            if let ExprKind::Match { scrutinee, arms } = &expr.kind {
                let range = check_arms(arms);
                if let Some(sugg) = range.predicate() {
                    let (recv, applicability) = match &scrutinee.text {
                        Some(text) => (text.as_str(), Applicability::MachineApplicable),
                        None => ("..", Applicability::MaybeIncorrect),
                    };
                    let mut replacement = String::from_str(recv);
                    replacement.append(".");
                    replacement.append(sugg);
                    replacement.append("()");
                    return Some(
                        Finding {
                            lint: Lint::ManualIsAsciiCheck,
                            span: macro_call.span,
                            message: Lint::ManualIsAsciiCheck.message(),
                            suggestion: Some(
                                Suggestion {
                                    help: String::from_str("try"),
                                    replacement,
                                    applicability,
                                },
                            ),
                        },
                    );
                }
            }
        }
        None
    }
}

} // verus!
