//! What a rule reports: the lint that fired, where, with which message, and
//! an optional replacement for the reported text.

use crate::symbol::Span;
use vstd::prelude::*;
use vstd::string::StringExecFns;

verus! {

/// The rules of this library.
#[derive(Clone, Copy, Debug, PartialEq, Eq, Hash, Structural)]
pub enum Lint {
    /// An aggregate without a declared layout crosses a C boundary.
    ExternWithoutRepr,
    /// A call into a function that is configured as dangerous.
    MemUnsafeFunctions,
    /// A range pattern that spells out an ASCII class.
    ManualIsAsciiCheck,
}

/// The group a lint is filed under, which decides how loudly it is reported.
#[derive(Clone, Copy, Debug, PartialEq, Eq, Hash, Structural)]
pub enum LintGroup {
    Pedantic,
    Nursery,
    Style,
}

/// How far a suggested replacement can be trusted.
#[derive(Clone, Copy, Debug, PartialEq, Eq, Hash, Structural)]
pub enum Applicability {
    /// The replacement is exact and can be applied unattended.
    MachineApplicable,
    /// The replacement holds a placeholder and needs a reader.
    MaybeIncorrect,
}

/// A replacement for the text at a finding's span.
#[derive(Clone, Debug, PartialEq, Eq)]
pub struct Suggestion {
    /// The lead-in shown before the replacement.
    pub help: String,
    pub replacement: String,
    pub applicability: Applicability,
}

/// One report of a rule.
#[derive(Clone, Debug, PartialEq, Eq)]
pub struct Finding {
    pub lint: Lint,
    pub span: Span,
    pub message: String,
    pub suggestion: Option<Suggestion>,
}

/// A suggestion with its texts as character sequences.
pub struct SuggestionView {
    pub help: Seq<char>,
    pub replacement: Seq<char>,
    pub applicability: Applicability,
}

/// A finding with its texts as character sequences.
pub struct FindingView {
    pub lint: Lint,
    pub span: Span,
    pub message: Seq<char>,
    pub suggestion: Option<SuggestionView>,
}

impl View for Suggestion {
    type V = SuggestionView;

    open spec fn view(&self) -> SuggestionView {
        SuggestionView {
            help: self.help@,
            replacement: self.replacement@,
            applicability: self.applicability,
        }
    }
}

impl View for Finding {
    type V = FindingView;

    open spec fn view(&self) -> FindingView {
        FindingView {
            lint: self.lint,
            span: self.span,
            message: self.message@,
            suggestion: match self.suggestion {
                Some(s) => Some(s@),
                None => None,
            },
        }
    }
}

/// The views of a sequence of findings, in order.
pub open spec fn views(findings: Seq<Finding>) -> Seq<FindingView> {
    findings.map_values(|f: Finding| f@)
}

/// The view of a finding that may be absent.
pub open spec fn view_of(finding: Option<Finding>) -> Option<FindingView> {
    match finding {
        Some(f) => Some(f@),
        None => None,
    }
}

impl Lint {
    /// The group the lint is filed under.
    pub open spec fn spec_group(self) -> LintGroup {
        match self {
            Lint::ExternWithoutRepr => LintGroup::Pedantic,
            Lint::MemUnsafeFunctions => LintGroup::Nursery,
            Lint::ManualIsAsciiCheck => LintGroup::Style,
        }
    }

    /// The message every finding of the lint carries.
    pub open spec fn spec_message(self) -> Seq<char> {
        match self {
            Lint::ExternWithoutRepr => "Should use repr to specifing data layout when struct is used in FFI"@,
            Lint::MemUnsafeFunctions => "use of potentially dangerous external functions"@,
            Lint::ManualIsAsciiCheck => "manual check for common ascii range"@,
        }
    }

    #[verifier::when_used_as_spec(spec_group)]
    pub fn group(self) -> (group: LintGroup)
        ensures
            group == self.spec_group(),
    {
        match self {
            Lint::ExternWithoutRepr => LintGroup::Pedantic,
            Lint::MemUnsafeFunctions => LintGroup::Nursery,
            Lint::ManualIsAsciiCheck => LintGroup::Style,
        }
    }

    pub fn message(self) -> (message: String)
        ensures
            message@ == self.spec_message(),
    {
        match self {
            Lint::ExternWithoutRepr => String::from_str(
                "Should use repr to specifing data layout when struct is used in FFI",
            ),
            Lint::MemUnsafeFunctions => String::from_str(
                "use of potentially dangerous external functions",
            ),
            Lint::ManualIsAsciiCheck => String::from_str("manual check for common ascii range"),
        }
    }
}

impl Finding {
    /// A finding of `lint` at `span` that suggests nothing.
    pub open spec fn plain(lint: Lint, span: Span) -> FindingView {
        FindingView { lint, span, message: lint.spec_message(), suggestion: None }
    }

    /// A finding of `lint` at `span`, with the lint's message and no
    /// suggestion.
    pub fn new(lint: Lint, span: Span) -> (finding: Finding)
        ensures
            finding@ == Finding::plain(lint, span),
    {
        Finding { lint, span, message: lint.message(), suggestion: None }
    }
}

} // verus!
