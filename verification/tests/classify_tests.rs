use dxlib_rs::classify::{classify, Category, ConvStep, ForeignType, HolderKind, ParamSpec};
use dxlib_rs::exprs::{DefaultAtom, DefaultExpr, DefaultTerm};
use dxlib_rs::types::{type_eq, DeclaredType, IntKind};

fn param(name: &str, ty: DeclaredType) -> ParamSpec {
    ParamSpec { name: String::from(name), ty, default: None }
}

#[test]
fn classify_optional_with_annotated_default() {
    let five = DefaultExpr::Sum(vec![DefaultTerm { negative: false, atom: DefaultAtom::Lit(5) }]);
    let p = ParamSpec {
        name: String::from("flag"),
        ty: DeclaredType::Optional(Box::new(DeclaredType::Int(IntKind::I32))),
        default: Some(five),
    };
    let r = classify(&p);
    assert_eq!(r.category, Category::OptionalWithDefault);
    assert_eq!(r.wrapper_ty, p.ty);
    assert_eq!(r.foreign_ty, ForeignType::Verbatim(DeclaredType::Int(IntKind::I32)));
    assert_eq!(
        r.step,
        ConvStep::SubstituteDefault(DefaultExpr::Sum(vec![DefaultTerm {
            negative: false,
            atom: DefaultAtom::Lit(5),
        }])),
    );
    assert_eq!(r.holder, HolderKind::NoHolder);
}

#[test]
fn classify_optional_without_annotation_uses_generic_zero() {
    let p = param("flag", DeclaredType::Optional(Box::new(DeclaredType::Int(IntKind::I32))));
    let r = classify(&p);
    assert_eq!(r.step, ConvStep::SubstituteDefault(DefaultExpr::GenericDefault));
}

#[test]
fn classify_optional_of_string_like_is_still_optional() {
    let p = param("text", DeclaredType::Optional(Box::new(DeclaredType::StrRef)));
    let r = classify(&p);
    assert_eq!(r.category, Category::OptionalWithDefault);
    assert_eq!(r.foreign_ty, ForeignType::Verbatim(DeclaredType::StrRef));
}

#[test]
fn classify_string_like_shapes() {
    for ty in [
        DeclaredType::StrRef,
        DeclaredType::OwnedString,
        DeclaredType::StringRef,
        DeclaredType::AsRefStr,
        DeclaredType::ToStringArg,
        DeclaredType::DisplayArg,
    ] {
        let r = classify(&param("text", ty));
        assert_eq!(r.category, Category::StringLike);
        assert_eq!(r.foreign_ty, ForeignType::ConstCharPtr);
        assert_eq!(r.step, ConvStep::MaterializeCString);
        assert_eq!(r.holder, HolderKind::CStrHolder);
    }
}

#[test]
fn classify_borrowable_sequences_need_no_holder() {
    let r = classify(&param("buf", DeclaredType::BorrowSeq(IntKind::U8)));
    assert_eq!(r.category, Category::BorrowableSeq);
    assert_eq!(r.foreign_ty, ForeignType::ConstPtr(IntKind::U8));
    assert_eq!(r.step, ConvStep::BorrowStart);
    assert_eq!(r.holder, HolderKind::NoHolder);

    let r = classify(&param("buf", DeclaredType::BorrowMutSeq(IntKind::I8)));
    assert_eq!(r.foreign_ty, ForeignType::MutPtr(IntKind::I8));
    assert_eq!(r.holder, HolderKind::NoHolder);
}

#[test]
fn classify_owned_sequences_take_a_holder() {
    let r = classify(&param("buf", DeclaredType::OwnedSeq(IntKind::I8)));
    assert_eq!(r.category, Category::OwnedSequence);
    assert_eq!(r.foreign_ty, ForeignType::ConstPtr(IntKind::I8));
    assert_eq!(r.step, ConvStep::MaterializeSeq);
    assert_eq!(r.holder, HolderKind::SeqHolder);

    let r = classify(&param("buf", DeclaredType::MutOwnedSeq(IntKind::I8)));
    assert_eq!(r.foreign_ty, ForeignType::MutPtr(IntKind::I8));
}

#[test]
fn classify_fixed_arrays_pass_their_own_storage() {
    let r = classify(&param("key_input", DeclaredType::FixedArray(IntKind::I8, 1024)));
    assert_eq!(r.category, Category::FixedSizeArray);
    assert_eq!(r.foreign_ty, ForeignType::ConstPtr(IntKind::I8));
    assert_eq!(r.step, ConvStep::ArrayAddr);
    assert_eq!(r.holder, HolderKind::NoHolder);

    let r = classify(&param("key_input", DeclaredType::MutFixedArray(IntKind::I8, 1024)));
    assert_eq!(r.foreign_ty, ForeignType::MutPtr(IntKind::I8));
}

#[test]
fn classify_mut_string_buffer_transfers_ownership() {
    let r = classify(&param("out", DeclaredType::MutStrBuffer));
    assert_eq!(r.category, Category::MutStringBuffer);
    assert_eq!(r.foreign_ty, ForeignType::MutCharPtr);
    assert_eq!(r.step, ConvStep::TransferCString);
    assert_eq!(r.holder, HolderKind::TransferredCStr);
}

#[test]
fn classify_passthrough_is_the_last_resort() {
    let r = classify(&param("color", DeclaredType::Int(IntKind::I32)));
    assert_eq!(r.category, Category::PassThrough);
    assert_eq!(r.foreign_ty, ForeignType::Verbatim(DeclaredType::Int(IntKind::I32)));
    assert_eq!(r.step, ConvStep::NoConversion);
    assert_eq!(r.holder, HolderKind::NoHolder);

    let r = classify(&param("rect", DeclaredType::Named(String::from("*mut RECT"))));
    assert_eq!(r.category, Category::PassThrough);
    assert_eq!(r.foreign_ty, ForeignType::Verbatim(DeclaredType::Named(String::from("*mut RECT"))));
}

#[test]
fn type_eq_compares_structurally() {
    let a = DeclaredType::Optional(Box::new(DeclaredType::Named(String::from("*mut RECT"))));
    let b = DeclaredType::Optional(Box::new(DeclaredType::Named(String::from("*mut RECT"))));
    let c = DeclaredType::Optional(Box::new(DeclaredType::Named(String::from("*mut POINT"))));
    assert!(type_eq(&a, &b));
    assert!(!type_eq(&a, &c));
    assert!(!type_eq(&a, &DeclaredType::Named(String::from("*mut RECT"))));
    assert!(type_eq(
        &DeclaredType::FixedArray(IntKind::I8, 4),
        &DeclaredType::FixedArray(IntKind::I8, 4),
    ));
    assert!(!type_eq(
        &DeclaredType::FixedArray(IntKind::I8, 4),
        &DeclaredType::FixedArray(IntKind::I8, 5),
    ));
}
