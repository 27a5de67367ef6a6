//! Rule-based lints over a resolved view of a program: foreign-function
//! boundaries that pass aggregates without a declared layout, calls into
//! configured dangerous functions, and range patterns that spell out an ASCII
//! class.

pub mod dispatcher;
pub mod extern_without_repr;
pub mod finding;
pub mod guidelines;
pub mod hir;
pub mod manual_is_ascii_check;
pub mod msrv;
pub mod symbol;
pub mod text;
