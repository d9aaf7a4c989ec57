use dxlib_rs::classify::{ConvStep, ForeignType};
use dxlib_rs::emit::{emit, ErrorPolicy, FailureTag, GenError};
use dxlib_rs::exprs::{CmpOp, DefaultAtom, DefaultExpr, DefaultTerm, ErrorCond};
use dxlib_rs::types::{DeclaredType, IntKind, ParamPattern, RawParam, RawSignature};

fn sig(ident: &str) -> RawSignature {
    RawSignature {
        ident: String::from(ident),
        params: vec![],
        ret: Some(DeclaredType::Int(IntKind::I32)),
        alias: None,
        not_result: false,
        error_condition: None,
    }
}

fn named_param(name: &str, ty: DeclaredType) -> RawParam {
    RawParam { pattern: ParamPattern::Name(String::from(name)), ty, default_expr: None }
}

#[test]
fn emit_unannotated_signature() {
    let m = emit(String::from("DxLib_x64"), &vec![sig("ProcessMessage")]).unwrap();
    assert_eq!(m.link_name, "DxLib_x64");
    assert_eq!(m.decls.len(), 1);
    assert_eq!(m.wrappers.len(), 1);
    assert_eq!(m.decls[0].symbol, "dx_ProcessMessage");
    assert_eq!(m.decls[0].ret, DeclaredType::Int(IntKind::I32));
    let w = &m.wrappers[0];
    assert_eq!(w.name, "ProcessMessage");
    assert_eq!(w.symbol, "dx_ProcessMessage");
    assert_eq!(w.policy, ErrorPolicy::Wrapped);
    assert_eq!(w.cond, ErrorCond { cast_to_i32: true, op: CmpOp::Eq, rhs: -1 });
    assert_eq!(w.tag, FailureTag::Generic);
}

#[test]
fn emit_alias_renames_the_wrapper_only() {
    let mut s = sig("DxLib_Init");
    s.alias = Some(String::from("dxlib_init"));
    let m = emit(String::from("DxLib_x64"), &vec![s]).unwrap();
    assert_eq!(m.wrappers[0].name, "dxlib_init");
    assert_eq!(m.wrappers[0].symbol, "dx_DxLib_Init");
    // the lifecycle special case keys on the wrapper-visible name
    assert_eq!(m.wrappers[0].tag, FailureTag::Generic);
}

#[test]
fn emit_alias_can_claim_a_lifecycle_tag() {
    let mut s = sig("raw_entry");
    s.alias = Some(String::from("DxLib_Init"));
    let m = emit(String::from("DxLib_x64"), &vec![s]).unwrap();
    assert_eq!(m.wrappers[0].tag, FailureTag::Initialize);
}

#[test]
fn emit_lifecycle_tags() {
    let m = emit(String::from("DxLib_x64"), &vec![sig("DxLib_Init"), sig("DxLib_End"), sig("WaitKey")])
        .unwrap();
    assert_eq!(m.wrappers[0].tag, FailureTag::Initialize);
    assert_eq!(m.wrappers[1].tag, FailureTag::Finalize);
    assert_eq!(m.wrappers[2].tag, FailureTag::Generic);
}

#[test]
fn emit_not_result_opts_out() {
    let mut s = sig("DxLib_Init");
    s.not_result = true;
    let m = emit(String::from("DxLib_x64"), &vec![s]).unwrap();
    assert_eq!(m.wrappers[0].policy, ErrorPolicy::Raw);
    assert_eq!(m.wrappers[0].tag, FailureTag::Initialize);
}

#[test]
fn emit_error_condition_override() {
    let mut s = sig("GetColor");
    s.error_condition = Some(String::from("result == i32::MAX"));
    let m = emit(String::from("DxLib_x64"), &vec![s]).unwrap();
    assert_eq!(
        m.wrappers[0].cond,
        ErrorCond { cast_to_i32: false, op: CmpOp::Eq, rhs: 2147483647 },
    );
}

#[test]
fn emit_error_condition_with_ordering_operator() {
    let mut s = sig("FileRead_open");
    s.error_condition = Some(String::from("result < 0"));
    let m = emit(String::from("DxLib_x64"), &vec![s]).unwrap();
    assert_eq!(m.wrappers[0].cond, ErrorCond { cast_to_i32: false, op: CmpOp::Lt, rhs: 0 });
}

#[test]
fn emit_classifies_every_parameter() {
    let mut s = sig("DrawString");
    s.params = vec![
        named_param("x", DeclaredType::Int(IntKind::I32)),
        named_param("string", DeclaredType::ToStringArg),
        RawParam {
            pattern: ParamPattern::Name(String::from("draw_screen")),
            ty: DeclaredType::Optional(Box::new(DeclaredType::Int(IntKind::I32))),
            default_expr: Some(String::from("DX_SCREEN_BACK")),
        },
    ];
    let m = emit(String::from("DxLib_x64"), &vec![s]).unwrap();
    let d = &m.decls[0];
    assert_eq!(d.params.len(), 3);
    assert_eq!(d.params[0], ForeignType::Verbatim(DeclaredType::Int(IntKind::I32)));
    assert_eq!(d.params[1], ForeignType::ConstCharPtr);
    assert_eq!(d.params[2], ForeignType::Verbatim(DeclaredType::Int(IntKind::I32)));
    let w = &m.wrappers[0];
    assert_eq!(w.params[1].name, "string");
    assert_eq!(
        w.params[2].recipe.step,
        ConvStep::SubstituteDefault(DefaultExpr::Sum(vec![DefaultTerm {
            negative: false,
            atom: DefaultAtom::Named { name: String::from("DX_SCREEN_BACK"), call: false },
        }])),
    );
}

#[test]
fn emit_missing_return_type_is_fatal() {
    let mut s = sig("Broken");
    s.ret = None;
    let e = emit(String::from("DxLib_x64"), &vec![s]).unwrap_err();
    assert_eq!(e, GenError::MissingReturnType { sig: String::from("Broken") });
}

#[test]
fn emit_bad_error_condition_is_fatal() {
    let mut s = sig("Broken");
    s.error_condition = Some(String::from("result == 1 || result == 2"));
    let e = emit(String::from("DxLib_x64"), &vec![s]).unwrap_err();
    assert_eq!(e, GenError::BadErrorCondition { sig: String::from("Broken") });
}

#[test]
fn emit_destructured_pattern_is_fatal() {
    let mut s = sig("Broken");
    s.params = vec![
        named_param("ok", DeclaredType::Int(IntKind::I32)),
        RawParam {
            pattern: ParamPattern::Destructured,
            ty: DeclaredType::Int(IntKind::I32),
            default_expr: None,
        },
    ];
    let e = emit(String::from("DxLib_x64"), &vec![s]).unwrap_err();
    assert_eq!(e, GenError::MalformedPattern { sig: String::from("Broken"), param_index: 1 });
}

#[test]
fn emit_bad_default_on_optional_is_fatal() {
    let mut s = sig("Broken");
    s.params = vec![RawParam {
        pattern: ParamPattern::Name(String::from("flag")),
        ty: DeclaredType::Optional(Box::new(DeclaredType::Int(IntKind::I32))),
        default_expr: Some(String::from("foo bar")),
    }];
    let e = emit(String::from("DxLib_x64"), &vec![s]).unwrap_err();
    assert_eq!(
        e,
        GenError::BadDefaultExpr { sig: String::from("Broken"), param: String::from("flag") },
    );
}

#[test]
fn emit_ignores_default_annotation_on_non_optional() {
    let mut s = sig("Fine");
    s.params = vec![RawParam {
        pattern: ParamPattern::Name(String::from("x")),
        ty: DeclaredType::Int(IntKind::I32),
        default_expr: Some(String::from("foo bar")),
    }];
    assert!(emit(String::from("DxLib_x64"), &vec![s]).is_ok());
}

#[test]
fn emit_reports_the_first_error_in_declaration_order() {
    let good = sig("Fine");
    let mut second = sig("Second");
    second.ret = None;
    let mut third = sig("Third");
    third.error_condition = Some(String::from("nope"));
    let e = emit(String::from("DxLib_x64"), &vec![good, second, third]).unwrap_err();
    assert_eq!(e, GenError::MissingReturnType { sig: String::from("Second") });
}

#[test]
fn emit_missing_return_outranks_bad_condition_within_a_signature() {
    let mut s = sig("Broken");
    s.ret = None;
    s.error_condition = Some(String::from("nope"));
    let e = emit(String::from("DxLib_x64"), &vec![s]).unwrap_err();
    assert_eq!(e, GenError::MissingReturnType { sig: String::from("Broken") });
}
