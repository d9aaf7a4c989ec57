//! The high-level type vocabulary of declared signatures.
//!
//! A declared parameter type is one of a finite set of shapes; the classifier
//! maps every shape to exactly one ABI-conversion category. The vocabulary is
//! kept open-ended through [`DeclaredType::Named`], which carries any other
//! type under its textual name and is passed through unchanged.

use vstd::prelude::*;

verus! {

/// Width and signedness of an integer element or scalar type.
#[derive(Debug, Clone, Copy, PartialEq, Eq, Structural)]
pub enum IntKind {
    I8,
    U8,
    I16,
    U16,
    I32,
    U32,
    I64,
    U64,
}

/// A parameter or return type as written in a declared signature.
#[derive(Debug, PartialEq, Eq)]
pub enum DeclaredType {
    /// A value that may be absent; the inner type is what the foreign side
    /// receives.
    Optional(Box<DeclaredType>),
    /// A shared string slice reference.
    StrRef,
    /// An owned string.
    OwnedString,
    /// A shared reference to an owned string.
    StringRef,
    /// A generic value usable as a string slice.
    AsRefStr,
    /// A generic value convertible to an owned string.
    ToStringArg,
    /// A generic value with a printable representation.
    DisplayArg,
    /// A value that can be borrowed as a slice of integers.
    BorrowSeq(IntKind),
    /// A value that can be mutably borrowed as a slice of integers.
    BorrowMutSeq(IntKind),
    /// An owned sequence of integers, or a value convertible into one.
    OwnedSeq(IntKind),
    /// A mutably referenced owned sequence of integers.
    MutOwnedSeq(IntKind),
    /// A fixed-size array of integers, owned by the calling frame.
    FixedArray(IntKind, usize),
    /// A mutably referenced fixed-size array of integers.
    MutFixedArray(IntKind, usize),
    /// A mutably referenced owned string used as an output byte buffer.
    MutStrBuffer,
    /// A pass-through integer scalar.
    Int(IntKind),
    /// Any other declared type, used unchanged on both sides under its name.
    Named(String),
}

impl Clone for DeclaredType {
    fn clone(&self) -> (r: Self)
        ensures
            r == *self,
        decreases self,
    {
        match self {
            DeclaredType::Optional(inner) => DeclaredType::Optional(Box::new((**inner).clone())),
            DeclaredType::StrRef => DeclaredType::StrRef,
            DeclaredType::OwnedString => DeclaredType::OwnedString,
            DeclaredType::StringRef => DeclaredType::StringRef,
            DeclaredType::AsRefStr => DeclaredType::AsRefStr,
            DeclaredType::ToStringArg => DeclaredType::ToStringArg,
            DeclaredType::DisplayArg => DeclaredType::DisplayArg,
            DeclaredType::BorrowSeq(k) => DeclaredType::BorrowSeq(*k),
            DeclaredType::BorrowMutSeq(k) => DeclaredType::BorrowMutSeq(*k),
            DeclaredType::OwnedSeq(k) => DeclaredType::OwnedSeq(*k),
            DeclaredType::MutOwnedSeq(k) => DeclaredType::MutOwnedSeq(*k),
            DeclaredType::FixedArray(k, n) => DeclaredType::FixedArray(*k, *n),
            DeclaredType::MutFixedArray(k, n) => DeclaredType::MutFixedArray(*k, *n),
            DeclaredType::MutStrBuffer => DeclaredType::MutStrBuffer,
            DeclaredType::Int(k) => DeclaredType::Int(*k),
            DeclaredType::Named(name) => DeclaredType::Named(name.clone()),
        }
    }
}

/// Whether two declared types are structurally identical: the same shape
/// throughout, with names compared by their characters.
pub open spec fn same_type(a: DeclaredType, b: DeclaredType) -> bool
    decreases a,
{
    match (a, b) {
        (DeclaredType::Optional(x), DeclaredType::Optional(y)) => same_type(*x, *y),
        (DeclaredType::StrRef, DeclaredType::StrRef) => true,
        (DeclaredType::OwnedString, DeclaredType::OwnedString) => true,
        (DeclaredType::StringRef, DeclaredType::StringRef) => true,
        (DeclaredType::AsRefStr, DeclaredType::AsRefStr) => true,
        (DeclaredType::ToStringArg, DeclaredType::ToStringArg) => true,
        (DeclaredType::DisplayArg, DeclaredType::DisplayArg) => true,
        (DeclaredType::BorrowSeq(k), DeclaredType::BorrowSeq(m)) => k == m,
        (DeclaredType::BorrowMutSeq(k), DeclaredType::BorrowMutSeq(m)) => k == m,
        (DeclaredType::OwnedSeq(k), DeclaredType::OwnedSeq(m)) => k == m,
        (DeclaredType::MutOwnedSeq(k), DeclaredType::MutOwnedSeq(m)) => k == m,
        (DeclaredType::FixedArray(k, n), DeclaredType::FixedArray(m, p)) => k == m && n == p,
        (DeclaredType::MutFixedArray(k, n), DeclaredType::MutFixedArray(m, p)) => k == m && n
            == p,
        (DeclaredType::MutStrBuffer, DeclaredType::MutStrBuffer) => true,
        (DeclaredType::Int(k), DeclaredType::Int(m)) => k == m,
        (DeclaredType::Named(x), DeclaredType::Named(y)) => x@ == y@,
        _ => false,
    }
}

/// Whether two declared types are structurally identical.
pub fn type_eq(a: &DeclaredType, b: &DeclaredType) -> (r: bool)
    ensures
        r == same_type(*a, *b),
    decreases a,
{
    match (a, b) {
        (DeclaredType::Optional(x), DeclaredType::Optional(y)) => type_eq(&**x, &**y),
        (DeclaredType::StrRef, DeclaredType::StrRef) => true,
        (DeclaredType::OwnedString, DeclaredType::OwnedString) => true,
        (DeclaredType::StringRef, DeclaredType::StringRef) => true,
        (DeclaredType::AsRefStr, DeclaredType::AsRefStr) => true,
        (DeclaredType::ToStringArg, DeclaredType::ToStringArg) => true,
        (DeclaredType::DisplayArg, DeclaredType::DisplayArg) => true,
        (DeclaredType::BorrowSeq(k), DeclaredType::BorrowSeq(m)) => *k == *m,
        (DeclaredType::BorrowMutSeq(k), DeclaredType::BorrowMutSeq(m)) => *k == *m,
        (DeclaredType::OwnedSeq(k), DeclaredType::OwnedSeq(m)) => *k == *m,
        (DeclaredType::MutOwnedSeq(k), DeclaredType::MutOwnedSeq(m)) => *k == *m,
        (DeclaredType::FixedArray(k, n), DeclaredType::FixedArray(m, p)) => *k == *m && *n == *p,
        (DeclaredType::MutFixedArray(k, n), DeclaredType::MutFixedArray(m, p)) => *k == *m && *n
            == *p,
        (DeclaredType::MutStrBuffer, DeclaredType::MutStrBuffer) => true,
        (DeclaredType::Int(k), DeclaredType::Int(m)) => *k == *m,
        (DeclaredType::Named(x), DeclaredType::Named(y)) => *x == *y,
        _ => false,
    }
}

/// How a declared parameter binds its value.
///
/// Only a plain name is accepted; a destructuring pattern is rejected before
/// classification with a generation-time fatal error.
#[derive(Debug, PartialEq, Eq)]
pub enum ParamPattern {
    Name(String),
    Destructured,
}

/// One declared parameter, as handed to the generator.
#[derive(Debug, PartialEq, Eq)]
pub struct RawParam {
    pub pattern: ParamPattern,
    pub ty: DeclaredType,
    /// The textual default-value annotation; only meaningful when the
    /// declared type is an optional.
    pub default_expr: Option<String>,
}

/// One declared signature, as handed to the generator: an identifier, ordered
/// typed parameters, a declared return type and the signature-level
/// annotations.
#[derive(Debug, PartialEq, Eq)]
pub struct RawSignature {
    pub ident: String,
    pub params: Vec<RawParam>,
    /// The declared return type; a signature without one cannot be emitted.
    pub ret: Option<DeclaredType>,
    /// Replaces the declared identifier as the wrapper-visible name.
    pub alias: Option<String>,
    /// Opts the wrapper out of tagged success/failure wrapping.
    pub not_result: bool,
    /// The textual error-condition annotation overriding the default
    /// predicate.
    pub error_condition: Option<String>,
}

} // verus!
