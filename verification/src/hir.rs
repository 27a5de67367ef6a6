//! The resolved view of a program that the rules read: items, types and
//! their declared layout, as the host hands them over.

use crate::symbol::{DefId, Span};
use vstd::prelude::*;

verus! {

/// The layout attributes declared on an aggregate type.
#[derive(Clone, Copy, Debug, PartialEq, Eq, Structural)]
pub struct ReprOptions {
    /// `repr(C)`.
    pub c: bool,
    /// `repr(simd)`.
    pub simd: bool,
    /// `repr(transparent)`.
    pub transparent: bool,
    /// `repr(packed)`, with or without a width.
    pub packed: bool,
    /// `repr(align(..))`.
    pub aligned: bool,
}

/// A nominal aggregate type (a struct, an enum or a union): its definition,
/// where that definition stands, and the layout declared there.
#[derive(Clone, Copy, Debug, PartialEq, Eq, Structural)]
pub struct AdtDef {
    pub did: DefId,
    pub span: Span,
    pub repr: ReprOptions,
}

/// A type as written in a signature.
#[derive(Debug, PartialEq, Eq)]
pub enum Ty {
    /// A raw pointer to the inner type.
    Ptr(Box<Ty>),
    /// A reference to the inner type.
    Ref(Box<Ty>),
    /// A type that resolves to an aggregate.
    Adt(AdtDef),
    /// Any other type: a primitive, a tuple, an array, a function pointer.
    Other,
}

/// A calling convention.
#[derive(Clone, Copy, Debug, PartialEq, Eq, Structural)]
pub enum Abi {
    Rust,
    C { unwind: bool },
    System { unwind: bool },
    Other,
}

/// The signature of a function definition.
#[derive(Debug, PartialEq, Eq)]
pub struct FnSig {
    /// The source text of the signature, where it can be recovered.
    pub text: Option<String>,
    /// The types of the parameters, in order.
    pub inputs: Vec<Ty>,
}

/// What a foreign block declares.
#[derive(Debug, PartialEq, Eq)]
pub enum ForeignItemKind {
    /// A function, with the types of its parameters in order.
    Fn { inputs: Vec<Ty> },
    Static,
    Type,
}

/// One declaration of a foreign block.
#[derive(Debug, PartialEq, Eq)]
pub struct ForeignItem {
    pub kind: ForeignItemKind,
    pub span: Span,
}

/// What an item is.
#[derive(Debug, PartialEq, Eq)]
pub enum ItemKind {
    /// A function definition.
    Fn(FnSig),
    /// A foreign block. Each entry is the declaration that the block's
    /// reference resolves to, if it resolves.
    ForeignMod { abi: Abi, items: Vec<Option<ForeignItem>> },
    /// Any other item.
    Other,
}

/// A top-level item of the program.
#[derive(Debug, PartialEq, Eq)]
pub struct Item {
    pub kind: ItemKind,
    pub span: Span,
}

/// A literal.
#[derive(Clone, Copy, Debug, PartialEq, Eq, Structural)]
pub enum LitKind {
    /// A character literal, such as `'a'`.
    Char(char),
    /// A byte literal, such as `b'a'`.
    Byte(u8),
    /// Any other literal.
    Other,
}

/// An expression in pattern position: an endpoint of a range pattern.
#[derive(Clone, Copy, Debug, PartialEq, Eq, Structural)]
pub enum PatExpr {
    Lit(LitKind),
    /// Anything that is not a literal: a path to a constant, a negation.
    Other,
}

/// Whether a range pattern includes its upper endpoint.
#[derive(Clone, Copy, Debug, PartialEq, Eq, Structural)]
pub enum RangeEnd {
    Included,
    Excluded,
}

/// What a pattern is.
#[derive(Debug, PartialEq, Eq)]
pub enum PatKind {
    /// Alternatives, `a | b`.
    Or(Vec<Pat>),
    /// A range with its endpoints, where they are written.
    Range(Option<PatExpr>, Option<PatExpr>, RangeEnd),
    /// Any other pattern.
    Other,
}

/// A pattern.
#[derive(Debug, PartialEq, Eq)]
pub struct Pat {
    pub kind: PatKind,
    pub span: Span,
}

/// One arm of a selector.
#[derive(Debug, PartialEq, Eq)]
pub struct Arm {
    pub pat: Pat,
    /// Whether a guard follows the pattern.
    pub guarded: bool,
    /// Whether the arm comes from the body of a macro rather than from the
    /// place where the macro is invoked: `matches!` closes its selector
    /// with such an arm.
    pub from_expansion: bool,
}

/// The macro invocation that an expression was expanded from.
#[derive(Clone, Debug, PartialEq, Eq)]
pub struct MacroCall {
    /// The macro that was invoked.
    pub def_id: DefId,
    /// The whole invocation.
    pub span: Span,
    /// The name under which diagnostics know the macro, if it has one.
    pub diagnostic_name: Option<String>,
}

/// The expression that a selector tests.
#[derive(Clone, Debug, PartialEq, Eq)]
pub struct Scrutinee {
    pub span: Span,
    /// The source text at `span`, where it can be recovered.
    pub text: Option<String>,
}

/// What an expression is.
#[derive(Debug, PartialEq, Eq)]
pub enum ExprKind {
    /// A call. `callee` is the definition that the called expression names,
    /// if it names one; a call through a function value names none.
    Call { callee: Option<DefId> },
    /// A selector over `scrutinee`, with all its arms in order.
    Match { scrutinee: Scrutinee, arms: Vec<Arm> },
    /// Any other expression.
    Other,
}

/// An expression, with what the host knows of its surroundings.
#[derive(Debug, PartialEq, Eq)]
pub struct Expr {
    pub kind: ExprKind,
    pub span: Span,
    /// Whether the expression is evaluated at compile time.
    pub in_constant: bool,
    /// The outermost macro invocation that produced the expression, if a
    /// macro produced it.
    pub root_macro: Option<MacroCall>,
}

impl Ty {
    /// The type under all layers of pointer and reference.
    pub open spec fn peeled(self) -> Ty
        decreases self,
    {
        match self {
            Ty::Ptr(inner) => inner.peeled(),
            Ty::Ref(inner) => inner.peeled(),
            _ => self,
        }
    }

    /// Strips all layers of pointer and reference.
    pub fn walk_ptrs(&self) -> (base: &Ty)
        ensures
            *base == self.peeled(),
            !(*base is Ptr),
            !(*base is Ref),
        decreases self,
    {
        match self {
            Ty::Ptr(inner) => inner.walk_ptrs(),
            Ty::Ref(inner) => inner.walk_ptrs(),
            _ => self,
        }
    }
}

} // verus!
