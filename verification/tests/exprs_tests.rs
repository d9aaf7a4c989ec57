use dxlib_rs::exprs::{
    default_cond, eval_cond, parse_default_expr, parse_error_cond, CmpOp, DefaultAtom,
    DefaultExpr, DefaultTerm, ErrorCond,
};

fn lit(v: i64) -> DefaultTerm {
    DefaultTerm { negative: false, atom: DefaultAtom::Lit(v) }
}

fn neg_lit(v: i64) -> DefaultTerm {
    DefaultTerm { negative: true, atom: DefaultAtom::Lit(v) }
}

fn named(name: &str, call: bool) -> DefaultTerm {
    DefaultTerm { negative: false, atom: DefaultAtom::Named { name: String::from(name), call } }
}

#[test]
fn parse_default_predicate_shape() {
    let c = parse_error_cond("result as i32 == -1i32").unwrap();
    assert_eq!(c, ErrorCond { cast_to_i32: true, op: CmpOp::Eq, rhs: -1 });
    assert_eq!(c, default_cond());
}

#[test]
fn parse_plain_comparison() {
    let c = parse_error_cond("result == -1").unwrap();
    assert_eq!(c, ErrorCond { cast_to_i32: false, op: CmpOp::Eq, rhs: -1 });
    let c = parse_error_cond("result == 0").unwrap();
    assert_eq!(c, ErrorCond { cast_to_i32: false, op: CmpOp::Eq, rhs: 0 });
}

#[test]
fn parse_comparison_operators() {
    let c = parse_error_cond("result != 1").unwrap();
    assert_eq!(c, ErrorCond { cast_to_i32: false, op: CmpOp::Ne, rhs: 1 });
    let c = parse_error_cond("result < 0").unwrap();
    assert_eq!(c, ErrorCond { cast_to_i32: false, op: CmpOp::Lt, rhs: 0 });
    let c = parse_error_cond("result <= -1").unwrap();
    assert_eq!(c, ErrorCond { cast_to_i32: false, op: CmpOp::Le, rhs: -1 });
    let c = parse_error_cond("result > 5").unwrap();
    assert_eq!(c, ErrorCond { cast_to_i32: false, op: CmpOp::Gt, rhs: 5 });
    let c = parse_error_cond("result >= 10").unwrap();
    assert_eq!(c, ErrorCond { cast_to_i32: false, op: CmpOp::Ge, rhs: 10 });
    let c = parse_error_cond("result as i32 != -1").unwrap();
    assert_eq!(c, ErrorCond { cast_to_i32: true, op: CmpOp::Ne, rhs: -1 });
}

#[test]
fn parse_path_constants() {
    let c = parse_error_cond("result == i32::MAX").unwrap();
    assert_eq!(c, ErrorCond { cast_to_i32: false, op: CmpOp::Eq, rhs: 2147483647 });
    let c = parse_error_cond("result == i32::MIN").unwrap();
    assert_eq!(c, ErrorCond { cast_to_i32: false, op: CmpOp::Eq, rhs: -2147483648 });
    let c = parse_error_cond("result == i32 :: MAX").unwrap();
    assert_eq!(c, ErrorCond { cast_to_i32: false, op: CmpOp::Eq, rhs: 2147483647 });
}

#[test]
fn parse_suffixed_literals() {
    let c = parse_error_cond("result == 1i64").unwrap();
    assert_eq!(c, ErrorCond { cast_to_i32: false, op: CmpOp::Eq, rhs: 1 });
    assert!(parse_error_cond("result == 1i16").is_none());
    assert!(parse_error_cond("result == 1x").is_none());
}

#[test]
fn parse_whitespace_variants() {
    let c = parse_error_cond("  result  as  i32  ==  -  7  ").unwrap();
    assert_eq!(c, ErrorCond { cast_to_i32: true, op: CmpOp::Eq, rhs: -7 });
}

#[test]
fn parse_rejects_malformed_conditions() {
    assert!(parse_error_cond("").is_none());
    assert!(parse_error_cond("results == 1").is_none());
    assert!(parse_error_cond("result = 1").is_none());
    assert!(parse_error_cond("result == foo").is_none());
    assert!(parse_error_cond("result as i64 == 1").is_none());
    assert!(parse_error_cond("result == 1 extra").is_none());
    assert!(parse_error_cond("result ==").is_none());
    assert!(parse_error_cond("result == 99999999999999999999").is_none());
    assert!(parse_error_cond("result == 1 || result == 2").is_none());
}

#[test]
fn eval_default_condition_widens_to_32_bits() {
    let c = default_cond();
    assert!(eval_cond(&c, -1));
    assert!(!eval_cond(&c, 0));
    assert!(!eval_cond(&c, 1));
    // only the low 32 bits decide
    assert!(eval_cond(&c, 0xFFFF_FFFFi64));
    assert!(eval_cond(&c, i64::MAX));
    assert!(!eval_cond(&c, 0x1_0000_0000i64));
}

#[test]
fn eval_overridden_condition_compares_at_full_width() {
    let c = ErrorCond { cast_to_i32: false, op: CmpOp::Eq, rhs: 2147483647 };
    assert!(eval_cond(&c, 2147483647));
    assert!(!eval_cond(&c, -1));
}

#[test]
fn eval_ordering_operators() {
    let lt = ErrorCond { cast_to_i32: false, op: CmpOp::Lt, rhs: 0 };
    assert!(eval_cond(&lt, -5));
    assert!(!eval_cond(&lt, 0));
    let ne = ErrorCond { cast_to_i32: false, op: CmpOp::Ne, rhs: 1 };
    assert!(eval_cond(&ne, 2));
    assert!(!eval_cond(&ne, 1));
    let ge = ErrorCond { cast_to_i32: true, op: CmpOp::Ge, rhs: 0 };
    assert!(eval_cond(&ge, 7));
    assert!(!eval_cond(&ge, -3));
}

#[test]
fn parse_default_keywords_stay_distinct() {
    assert_eq!(parse_default_expr("null").unwrap(), DefaultExpr::NullPtr);
    assert_eq!(parse_default_expr("null_mut").unwrap(), DefaultExpr::NullMutPtr);
    assert_eq!(parse_default_expr("default").unwrap(), DefaultExpr::GenericDefault);
}

#[test]
fn parse_default_literals() {
    assert_eq!(parse_default_expr("7").unwrap(), DefaultExpr::Sum(vec![lit(7)]));
    assert_eq!(parse_default_expr("-3").unwrap(), DefaultExpr::Sum(vec![neg_lit(3)]));
    assert_eq!(parse_default_expr("1i32").unwrap(), DefaultExpr::Sum(vec![lit(1)]));
    assert_eq!(parse_default_expr("i32::MAX").unwrap(), DefaultExpr::Sum(vec![lit(2147483647)]));
}

#[test]
fn parse_default_named_constants() {
    assert_eq!(
        parse_default_expr("DX_SCREEN_BACK").unwrap(),
        DefaultExpr::Sum(vec![named("DX_SCREEN_BACK", false)]),
    );
    assert_eq!(
        parse_default_expr("default_rect_ptr()").unwrap(),
        DefaultExpr::Sum(vec![named("default_rect_ptr", true)]),
    );
    assert_eq!(
        parse_default_expr(" default_rect_ptr ( ) ").unwrap(),
        DefaultExpr::Sum(vec![named("default_rect_ptr", true)]),
    );
}

#[test]
fn parse_default_additive_expressions() {
    assert_eq!(parse_default_expr("1 + 2").unwrap(), DefaultExpr::Sum(vec![lit(1), lit(2)]));
    assert_eq!(
        parse_default_expr("1+2-3").unwrap(),
        DefaultExpr::Sum(vec![lit(1), lit(2), neg_lit(3)]),
    );
    assert_eq!(
        parse_default_expr("DX_SCREEN_BACK + 1").unwrap(),
        DefaultExpr::Sum(vec![named("DX_SCREEN_BACK", false), lit(1)]),
    );
    // subtracting a negated atom adds it
    assert_eq!(parse_default_expr("5 - -2").unwrap(), DefaultExpr::Sum(vec![lit(5), lit(2)]));
}

#[test]
fn parse_default_rejects_malformed_expressions() {
    assert!(parse_default_expr("").is_none());
    assert!(parse_default_expr("()").is_none());
    assert!(parse_default_expr("3x").is_none());
    assert!(parse_default_expr("foo(1)").is_none());
    assert!(parse_default_expr("foo bar").is_none());
    assert!(parse_default_expr("1 +").is_none());
    assert!(parse_default_expr("+ 1").is_none());
    assert!(parse_default_expr("1 * 2").is_none());
    assert!(parse_default_expr("99999999999999999999").is_none());
}
