//! The signature classifier: maps a declared parameter to its ABI-conversion
//! recipe.
//!
//! Every declared type belongs to exactly one conversion category, resolved
//! by a fixed precedence order with first match winning; a type that matches
//! no earlier category falls through to pass-through, so classification is
//! total and never an error.

use vstd::prelude::*;

use crate::exprs::default_view;
use crate::exprs::DefaultExpr;
use crate::types::DeclaredType;
use crate::types::IntKind;

verus! {

/// The ABI-conversion categories, in precedence order.
#[derive(Debug, Clone, Copy, PartialEq, Eq, Structural)]
pub enum Category {
    /// A possibly-absent value: the present inner value, or a default, is
    /// passed under the inner type.
    OptionalWithDefault,
    /// A value borrowed as an (im)mutable slice for the duration of the
    /// call: its start address is passed, no holder is needed.
    BorrowableSeq,
    /// A string-like value: a freshly materialized null-terminated copy is
    /// passed, kept alive by a holder across the call.
    StringLike,
    /// An owned (or convertible) sequence realized into a holder whose
    /// backing storage is passed.
    OwnedSequence,
    /// A fixed-size array owned by the calling frame: its storage address is
    /// passed directly.
    FixedSizeArray,
    /// A mutable string used as an output byte buffer: a null-terminated
    /// copy is passed and its ownership is transferred to the callee.
    MutStringBuffer,
    /// Any other value, passed through unchanged.
    PassThrough,
}

/// The optional-value capability.
pub open spec fn is_optional(t: DeclaredType) -> bool {
    t is Optional
}

/// The borrowable-slice capability, immutable or mutable.
pub open spec fn is_borrowable_seq(t: DeclaredType) -> bool {
    t is BorrowSeq || t is BorrowMutSeq
}

/// The string capability: owned strings, string references and the generic
/// string-convertible shapes are one category, since their ABI treatment is
/// identical.
pub open spec fn is_string_like(t: DeclaredType) -> bool {
    t is StrRef || t is OwnedString || t is StringRef || t is AsRefStr || t is ToStringArg
        || t is DisplayArg
}

/// The owned-or-converted-sequence capability.
pub open spec fn is_owned_sequence(t: DeclaredType) -> bool {
    t is OwnedSeq || t is MutOwnedSeq
}

/// The fixed-size-array capability.
pub open spec fn is_fixed_array(t: DeclaredType) -> bool {
    t is FixedArray || t is MutFixedArray
}

/// The mutable-string output-buffer shape.
pub open spec fn is_mut_string_buffer(t: DeclaredType) -> bool {
    t is MutStrBuffer
}

/// The category of a declared type: the first capability, in precedence
/// order, that the type satisfies, with pass-through as the unconditional
/// last resort.
pub open spec fn category_of(t: DeclaredType) -> Category {
    if is_optional(t) {
        Category::OptionalWithDefault
    } else if is_borrowable_seq(t) {
        Category::BorrowableSeq
    } else if is_string_like(t) {
        Category::StringLike
    } else if is_owned_sequence(t) {
        Category::OwnedSequence
    } else if is_fixed_array(t) {
        Category::FixedSizeArray
    } else if is_mut_string_buffer(t) {
        Category::MutStringBuffer
    } else {
        Category::PassThrough
    }
}

/// The foreign-call-facing type of a parameter.
#[derive(Debug, PartialEq, Eq)]
pub enum ForeignType {
    /// The type as written, used unchanged: pass-through parameters and the
    /// inner type of an optional.
    Verbatim(DeclaredType),
    /// A read-only pointer to integer elements.
    ConstPtr(IntKind),
    /// A writable pointer to integer elements.
    MutPtr(IntKind),
    /// A read-only pointer to a null-terminated byte buffer.
    ConstCharPtr,
    /// A writable pointer to a null-terminated byte buffer.
    MutCharPtr,
}

impl Clone for ForeignType {
    fn clone(&self) -> (r: Self)
        ensures
            r == *self,
    {
        match self {
            ForeignType::Verbatim(t) => ForeignType::Verbatim(t.clone()),
            ForeignType::ConstPtr(k) => ForeignType::ConstPtr(*k),
            ForeignType::MutPtr(k) => ForeignType::MutPtr(*k),
            ForeignType::ConstCharPtr => ForeignType::ConstCharPtr,
            ForeignType::MutCharPtr => ForeignType::MutCharPtr,
        }
    }
}

/// The foreign-facing type of each declared type.
pub open spec fn foreign_of(t: DeclaredType) -> ForeignType {
    match t {
        DeclaredType::Optional(inner) => ForeignType::Verbatim(*inner),
        DeclaredType::BorrowSeq(k) => ForeignType::ConstPtr(k),
        DeclaredType::BorrowMutSeq(k) => ForeignType::MutPtr(k),
        DeclaredType::StrRef => ForeignType::ConstCharPtr,
        DeclaredType::OwnedString => ForeignType::ConstCharPtr,
        DeclaredType::StringRef => ForeignType::ConstCharPtr,
        DeclaredType::AsRefStr => ForeignType::ConstCharPtr,
        DeclaredType::ToStringArg => ForeignType::ConstCharPtr,
        DeclaredType::DisplayArg => ForeignType::ConstCharPtr,
        DeclaredType::OwnedSeq(k) => ForeignType::ConstPtr(k),
        DeclaredType::MutOwnedSeq(k) => ForeignType::MutPtr(k),
        DeclaredType::FixedArray(k, _) => ForeignType::ConstPtr(k),
        DeclaredType::MutFixedArray(k, _) => ForeignType::MutPtr(k),
        DeclaredType::MutStrBuffer => ForeignType::MutCharPtr,
        DeclaredType::Int(k) => ForeignType::Verbatim(DeclaredType::Int(k)),
        DeclaredType::Named(n) => ForeignType::Verbatim(DeclaredType::Named(n)),
    }
}

/// The conversion step run by the wrapper for one parameter, in
/// parameter-declaration order, before the foreign call.
#[derive(Debug, PartialEq, Eq)]
pub enum ConvStep {
    /// Substitute the present inner value, or the default when absent.
    SubstituteDefault(DefaultExpr),
    /// Obtain the borrowed view and take its start address; the borrow
    /// outlives the call because the original value does.
    BorrowStart,
    /// Materialize a holder owning a freshly allocated null-terminated copy
    /// of the string content and take its pointer.
    MaterializeCString,
    /// Materialize a holder owning the realized sequence and take the
    /// address of its backing storage.
    MaterializeSeq,
    /// Take the address of the array's own storage.
    ArrayAddr,
    /// Materialize an owned null-terminated copy and transfer its ownership
    /// to the callee; the wrapper never reclaims it.
    TransferCString,
    /// No conversion.
    NoConversion,
}

/// The kind of transient resource holder a conversion step materializes.
#[derive(Debug, Clone, Copy, PartialEq, Eq, Structural)]
pub enum HolderKind {
    NoHolder,
    /// Owns a null-terminated byte copy; alive until the call returns.
    CStrHolder,
    /// Owns the realized element sequence; alive until the call returns.
    SeqHolder,
    /// Owns a null-terminated byte copy whose ownership passes to the
    /// callee.
    TransferredCStr,
}

/// One declared parameter after annotation validation: its name, declared
/// type and parsed default-value annotation.
#[derive(Debug, PartialEq, Eq)]
pub struct ParamSpec {
    pub name: String,
    pub ty: DeclaredType,
    pub default: Option<DefaultExpr>,
}

/// The conversion step of a parameter: determined by its category, and for
/// an optional parameter by its default annotation, falling back to the
/// inner type's generic zero value.
pub open spec fn step_of(t: DeclaredType, default: Option<DefaultExpr>) -> ConvStep {
    match category_of(t) {
        Category::OptionalWithDefault => match default {
            Some(e) => ConvStep::SubstituteDefault(e),
            None => ConvStep::SubstituteDefault(DefaultExpr::GenericDefault),
        },
        Category::BorrowableSeq => ConvStep::BorrowStart,
        Category::StringLike => ConvStep::MaterializeCString,
        Category::OwnedSequence => ConvStep::MaterializeSeq,
        Category::FixedSizeArray => ConvStep::ArrayAddr,
        Category::MutStringBuffer => ConvStep::TransferCString,
        Category::PassThrough => ConvStep::NoConversion,
    }
}

/// The holder kind of a parameter's conversion.
pub open spec fn holder_of(t: DeclaredType) -> HolderKind {
    match category_of(t) {
        Category::StringLike => HolderKind::CStrHolder,
        Category::OwnedSequence => HolderKind::SeqHolder,
        Category::MutStringBuffer => HolderKind::TransferredCStr,
        _ => HolderKind::NoHolder,
    }
}

/// The classifier's output for one parameter: the wrapper-facing type, the
/// foreign-facing type, the conversion step and the holder the step
/// materializes.
#[derive(Debug, PartialEq, Eq)]
pub struct ConversionRecipe {
    pub category: Category,
    /// The wrapper keeps the declared high-level type.
    pub wrapper_ty: DeclaredType,
    pub foreign_ty: ForeignType,
    pub step: ConvStep,
    pub holder: HolderKind,
}

/// Whether two conversion steps agree: any default they carry is compared by
/// its mathematical value.
pub open spec fn step_view_matches(a: ConvStep, b: ConvStep) -> bool {
    match (a, b) {
        (ConvStep::SubstituteDefault(x), ConvStep::SubstituteDefault(y)) => default_view(x)
            == default_view(y),
        _ => a == b,
    }
}

/// Classifies one declared parameter. Classification is total and
/// deterministic: it cannot fail, and a holder is materialized exactly for
/// the string-like, owned-sequence and output-buffer categories.
pub fn classify(p: &ParamSpec) -> (r: ConversionRecipe)
    ensures
        r.category == category_of(p.ty),
        r.wrapper_ty == p.ty,
        r.foreign_ty == foreign_of(p.ty),
        r.holder == holder_of(p.ty),
        step_view_matches(r.step, step_of(p.ty, p.default)),
        (r.holder is NoHolder <==> !(r.category is StringLike || r.category is OwnedSequence
            || r.category is MutStringBuffer)),
{
    let category = match &p.ty {
        DeclaredType::Optional(_) => Category::OptionalWithDefault,
        DeclaredType::BorrowSeq(_) => Category::BorrowableSeq,
        DeclaredType::BorrowMutSeq(_) => Category::BorrowableSeq,
        DeclaredType::StrRef => Category::StringLike,
        DeclaredType::OwnedString => Category::StringLike,
        DeclaredType::StringRef => Category::StringLike,
        DeclaredType::AsRefStr => Category::StringLike,
        DeclaredType::ToStringArg => Category::StringLike,
        DeclaredType::DisplayArg => Category::StringLike,
        DeclaredType::OwnedSeq(_) => Category::OwnedSequence,
        DeclaredType::MutOwnedSeq(_) => Category::OwnedSequence,
        DeclaredType::FixedArray(_, _) => Category::FixedSizeArray,
        DeclaredType::MutFixedArray(_, _) => Category::FixedSizeArray,
        DeclaredType::MutStrBuffer => Category::MutStringBuffer,
        DeclaredType::Int(_) => Category::PassThrough,
        DeclaredType::Named(_) => Category::PassThrough,
    };
    let foreign_ty = match &p.ty {
        DeclaredType::Optional(inner) => ForeignType::Verbatim((**inner).clone()),
        DeclaredType::BorrowSeq(k) => ForeignType::ConstPtr(*k),
        DeclaredType::BorrowMutSeq(k) => ForeignType::MutPtr(*k),
        DeclaredType::StrRef => ForeignType::ConstCharPtr,
        DeclaredType::OwnedString => ForeignType::ConstCharPtr,
        DeclaredType::StringRef => ForeignType::ConstCharPtr,
        DeclaredType::AsRefStr => ForeignType::ConstCharPtr,
        DeclaredType::ToStringArg => ForeignType::ConstCharPtr,
        DeclaredType::DisplayArg => ForeignType::ConstCharPtr,
        DeclaredType::OwnedSeq(k) => ForeignType::ConstPtr(*k),
        DeclaredType::MutOwnedSeq(k) => ForeignType::MutPtr(*k),
        DeclaredType::FixedArray(k, _) => ForeignType::ConstPtr(*k),
        DeclaredType::MutFixedArray(k, _) => ForeignType::MutPtr(*k),
        DeclaredType::MutStrBuffer => ForeignType::MutCharPtr,
        DeclaredType::Int(k) => ForeignType::Verbatim(DeclaredType::Int(*k)),
        DeclaredType::Named(n) => ForeignType::Verbatim(DeclaredType::Named(n.clone())),
    };
    let step = match category {
        Category::OptionalWithDefault => match &p.default {
            Some(e) => ConvStep::SubstituteDefault(e.clone()),
            None => ConvStep::SubstituteDefault(DefaultExpr::GenericDefault),
        },
        Category::BorrowableSeq => ConvStep::BorrowStart,
        Category::StringLike => ConvStep::MaterializeCString,
        Category::OwnedSequence => ConvStep::MaterializeSeq,
        Category::FixedSizeArray => ConvStep::ArrayAddr,
        Category::MutStringBuffer => ConvStep::TransferCString,
        Category::PassThrough => ConvStep::NoConversion,
    };
    let holder = match category {
        Category::StringLike => HolderKind::CStrHolder,
        Category::OwnedSequence => HolderKind::SeqHolder,
        Category::MutStringBuffer => HolderKind::TransferredCStr,
        _ => HolderKind::NoHolder,
    };
    ConversionRecipe { category, wrapper_ty: p.ty.clone(), foreign_ty, step, holder }
}

} // verus!
