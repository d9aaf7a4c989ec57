//! Parsing and evaluation of annotation expressions.
//!
//! Signatures carry two kinds of textual annotation expressions: an
//! error-condition predicate overriding the default result classification,
//! and a per-parameter default value for optional parameters. Both are parsed
//! at generation time; a string that does not fit the grammar is a
//! generation-time fatal error.

use vstd::prelude::*;
use vstd::string::StrSliceExecFns;

use crate::utils::chars_to_string;

verus! {

/// Whitespace accepted between tokens of an annotation expression.
pub open spec fn is_space(c: char) -> bool {
    c == ' ' || c == '\t'
}

/// A decimal digit.
pub open spec fn is_digit(c: char) -> bool {
    '0' <= c && c <= '9'
}

/// A character that may start an identifier.
pub open spec fn is_ident_start(c: char) -> bool {
    c == '_' || ('a' <= c && c <= 'z') || ('A' <= c && c <= 'Z')
}

/// A character that may continue an identifier.
pub open spec fn is_ident_char(c: char) -> bool {
    is_ident_start(c) || is_digit(c)
}

/// The first position at or after `i` that does not hold whitespace.
pub open spec fn skip_ws(s: Seq<char>, i: int) -> int
    decreases s.len() - i,
{
    if 0 <= i < s.len() && is_space(s[i]) {
        skip_ws(s, i + 1)
    } else {
        i
    }
}

/// The end of the identifier-character run starting at `i`.
pub open spec fn ident_end(s: Seq<char>, i: int) -> int
    decreases s.len() - i,
{
    if 0 <= i < s.len() && is_ident_char(s[i]) {
        ident_end(s, i + 1)
    } else {
        i
    }
}

/// The end of the digit run starting at `i`.
pub open spec fn digits_end(s: Seq<char>, i: int) -> int
    decreases s.len() - i,
{
    if 0 <= i < s.len() && is_digit(s[i]) {
        digits_end(s, i + 1)
    } else {
        i
    }
}

fn exec_is_space(c: char) -> (b: bool)
    ensures
        b == is_space(c),
{
    c == ' ' || c == '\t'
}

fn exec_is_digit(c: char) -> (b: bool)
    ensures
        b == is_digit(c),
{
    '0' <= c && c <= '9'
}

fn exec_is_ident_char(c: char) -> (b: bool)
    ensures
        b == is_ident_char(c),
{
    c == '_' || ('a' <= c && c <= 'z') || ('A' <= c && c <= 'Z') || ('0' <= c && c <= '9')
}

/// The characters of `s`, in order, as an indexable buffer.
pub fn str_to_chars(s: &str) -> (r: Vec<char>)
    ensures
        r@ == s@,
{
    let n = s.unicode_len();
    let mut r: Vec<char> = Vec::new();
    let mut i: usize = 0;
    while i < n
        invariant
            n == s@.len(),
            i <= n,
            r@ == s@.subrange(0, i as int),
        decreases n - i,
    {
        r.push(s.get_char(i));
        i = i + 1;
        proof {
            assert(r@ =~= s@.subrange(0, i as int));
        }
    }
    proof {
        assert(r@ =~= s@);
    }
    r
}

fn exec_skip_ws(s: &Vec<char>, i: usize) -> (r: usize)
    requires
        i <= s@.len(),
    ensures
        r == skip_ws(s@, i as int),
        i <= r <= s@.len(),
{
    let mut j = i;
    while j < s.len() && exec_is_space(s[j])
        invariant
            i <= j <= s@.len(),
            skip_ws(s@, i as int) == skip_ws(s@, j as int),
        decreases s@.len() - j,
    {
        j = j + 1;
    }
    j
}

fn exec_ident_end(s: &Vec<char>, i: usize) -> (r: usize)
    requires
        i <= s@.len(),
    ensures
        r == ident_end(s@, i as int),
        i <= r <= s@.len(),
{
    let mut j = i;
    while j < s.len() && exec_is_ident_char(s[j])
        invariant
            i <= j <= s@.len(),
            ident_end(s@, i as int) == ident_end(s@, j as int),
        decreases s@.len() - j,
    {
        j = j + 1;
    }
    j
}

fn exec_digits_end(s: &Vec<char>, i: usize) -> (r: usize)
    requires
        i <= s@.len(),
    ensures
        r == digits_end(s@, i as int),
        i <= r <= s@.len(),
{
    let mut j = i;
    while j < s.len() && exec_is_digit(s[j])
        invariant
            i <= j <= s@.len(),
            digits_end(s@, i as int) == digits_end(s@, j as int),
        decreases s@.len() - j,
    {
        j = j + 1;
    }
    j
}

/// Whether the characters of `s` between `from` and `to` spell `lit`.
fn chars_match(s: &Vec<char>, from: usize, to: usize, lit: &str) -> (b: bool)
    requires
        from <= to <= s@.len(),
    ensures
        b == (s@.subrange(from as int, to as int) == lit@),
{
    let n = lit.unicode_len();
    if to - from != n {
        proof {
            assert(s@.subrange(from as int, to as int).len() == to - from);
        }
        return false;
    }
    let mut k: usize = 0;
    while k < n
        invariant
            n == lit@.len(),
            from <= to <= s@.len(),
            to - from == n,
            k <= n,
            forall|m: int| 0 <= m < k ==> s@.subrange(from as int, to as int)[m] == lit@[m],
        decreases n - k,
    {
        if s[from + k] != lit.get_char(k) {
            proof {
                assert(s@.subrange(from as int, to as int)[k as int] != lit@[k as int]);
            }
            return false;
        }
        k = k + 1;
    }
    proof {
        assert(s@.subrange(from as int, to as int) =~= lit@);
    }
    true
}

/// Numeric value of the digit `c`.
pub open spec fn digit_of(c: char) -> int {
    c as int - '0' as int
}

/// Value of the decimal digit run of `s` between `i` and `j`.
pub open spec fn digits_val(s: Seq<char>, i: int, j: int) -> int
    decreases j - i,
{
    if i < j {
        digits_val(s, i, j - 1) * 10 + digit_of(s[j - 1])
    } else {
        0
    }
}

/// Everything before a digit run's end is a digit.
proof fn lemma_digits_end_run(s: Seq<char>, i: int)
    requires
        0 <= i <= s.len(),
    ensures
        i <= digits_end(s, i) <= s.len(),
        forall|m: int| i <= m < digits_end(s, i) ==> is_digit(#[trigger] s[m]),
    decreases s.len() - i,
{
    if i < s.len() && is_digit(s[i]) {
        lemma_digits_end_run(s, i + 1);
    }
}

/// A digit run's value is non-negative and grows with the run.
proof fn lemma_digits_val_mono(s: Seq<char>, i: int, k: int, j: int)
    requires
        0 <= i <= k <= j <= s.len(),
        forall|m: int| i <= m < j ==> is_digit(#[trigger] s[m]),
    ensures
        0 <= digits_val(s, i, k) <= digits_val(s, i, j),
    decreases j - i,
{
    if k < j {
        lemma_digits_val_mono(s, i, k, j - 1);
        assert(0 <= digit_of(s[j - 1]) <= 9);
    } else if i < k {
        lemma_digits_val_mono(s, i, i, k - 1);
        assert(0 <= digit_of(s[k - 1]) <= 9);
    }
}

/// A parsed integer literal: its value and the position after it, including
/// an optional width suffix. The literal's magnitude must fit a 64-bit signed
/// integer; a larger one does not parse.
pub open spec fn spec_scan_number(s: Seq<char>, i: int) -> Option<(int, int)> {
    let j = digits_end(s, i);
    let k = ident_end(s, j);
    if j == i {
        None
    } else if j < k && s.subrange(j, k) != "i32"@ && s.subrange(j, k) != "i64"@ {
        None
    } else if digits_val(s, i, j) > i64::MAX as int {
        None
    } else {
        Some((digits_val(s, i, j), k))
    }
}

fn exec_scan_number(s: &Vec<char>, i: usize) -> (r: Option<(i64, usize)>)
    requires
        i <= s@.len(),
    ensures
        match r {
            Some((v, e)) => spec_scan_number(s@, i as int) == Some((v as int, e as int)) && 0 <= v
                && i < e <= s@.len(),
            None => spec_scan_number(s@, i as int) is None,
        },
{
    let j = exec_digits_end(s, i);
    let k = exec_ident_end(s, j);
    if j == i {
        return None;
    }
    if j < k && !chars_match(s, j, k, "i32") && !chars_match(s, j, k, "i64") {
        return None;
    }
    proof {
        lemma_digits_end_run(s@, i as int);
    }
    let mut acc: u128 = 0;
    let mut m: usize = i;
    while m < j
        invariant
            i <= m <= j <= s@.len(),
            digits_end(s@, i as int) == j,
            forall|t: int| i <= t < j ==> is_digit(#[trigger] s@[t]),
            acc == digits_val(s@, i as int, m as int),
            acc <= i64::MAX as u128,
        decreases j - m,
    {
        let d: u32 = (s[m] as u32) - 48;
        proof {
            assert(is_digit(s@[m as int]));
            assert(digit_of(s@[m as int]) == d as int);
        }
        let next: u128 = acc * 10 + (d as u128);
        if next > i64::MAX as u128 {
            proof {
                lemma_digits_val_mono(s@, i as int, m + 1, j as int);
            }
            return None;
        }
        acc = next;
        m = m + 1;
    }
    Some((acc as i64, k))
}

/// A comparison operator of an error-condition predicate.
#[derive(Debug, Clone, Copy, PartialEq, Eq, Structural)]
pub enum CmpOp {
    Eq,
    Ne,
    Lt,
    Le,
    Gt,
    Ge,
}

/// An error-condition predicate over the raw foreign result: the result,
/// optionally cast to a 32-bit signed integer first, is compared against a
/// constant.
#[derive(Debug, Clone, Copy, PartialEq, Eq, Structural)]
pub struct ErrorCond {
    pub cast_to_i32: bool,
    pub op: CmpOp,
    pub rhs: i64,
}

/// The default error-condition predicate: the raw result, taken at 32-bit
/// signed width, equals -1.
pub open spec fn spec_default_cond() -> ErrorCond {
    ErrorCond { cast_to_i32: true, op: CmpOp::Eq, rhs: -1i64 }
}

pub fn default_cond() -> (c: ErrorCond)
    ensures
        c == spec_default_cond(),
{
    ErrorCond { cast_to_i32: true, op: CmpOp::Eq, rhs: -1i64 }
}

/// The comparison an operator stands for.
pub open spec fn spec_cmp(op: CmpOp, lhs: i64, rhs: i64) -> bool {
    match op {
        CmpOp::Eq => lhs == rhs,
        CmpOp::Ne => lhs != rhs,
        CmpOp::Lt => lhs < rhs,
        CmpOp::Le => lhs <= rhs,
        CmpOp::Gt => lhs > rhs,
        CmpOp::Ge => lhs >= rhs,
    }
}

/// Whether the predicate holds of a raw foreign result.
pub open spec fn spec_eval_cond(c: ErrorCond, raw: i64) -> bool {
    if c.cast_to_i32 {
        spec_cmp(c.op, (raw as i32) as i64, c.rhs)
    } else {
        spec_cmp(c.op, raw, c.rhs)
    }
}

pub fn eval_cond(c: &ErrorCond, raw: i64) -> (b: bool)
    ensures
        b == spec_eval_cond(*c, raw),
{
    let lhs: i64 = if c.cast_to_i32 {
        let t: i32 = #[verifier::truncate] (raw as i32);
        t as i64
    } else {
        raw
    };
    match c.op {
        CmpOp::Eq => lhs == c.rhs,
        CmpOp::Ne => lhs != c.rhs,
        CmpOp::Lt => lhs < c.rhs,
        CmpOp::Le => lhs <= c.rhs,
        CmpOp::Gt => lhs > c.rhs,
        CmpOp::Ge => lhs >= c.rhs,
    }
}

/// A comparison constant parsed to the end of the string: a decimal literal
/// with an optional leading minus sign, or the largest or smallest 32-bit
/// signed value under its usual path-style spelling.
pub open spec fn spec_parse_const(s: Seq<char>, i: int) -> Option<int> {
    if 0 <= i < s.len() && s[i] == '-' {
        match spec_scan_number(s, skip_ws(s, i + 1)) {
            Some((v, e)) => if skip_ws(s, e) == s.len() {
                Some(-v)
            } else {
                None
            },
            None => None,
        }
    } else if 0 <= i < s.len() && is_digit(s[i]) {
        match spec_scan_number(s, i) {
            Some((v, e)) => if skip_ws(s, e) == s.len() {
                Some(v)
            } else {
                None
            },
            None => None,
        }
    } else {
        let j = ident_end(s, i);
        if 0 <= i && j > i && s.subrange(i, j) == "i32"@ {
            let k = skip_ws(s, j);
            if k + 2 <= s.len() && s[k] == ':' && s[k + 1] == ':' {
                let m0 = skip_ws(s, k + 2);
                let m1 = ident_end(s, m0);
                if m1 > m0 && s.subrange(m0, m1) == "MAX"@ && skip_ws(s, m1) == s.len() {
                    Some(i32::MAX as int)
                } else if m1 > m0 && s.subrange(m0, m1) == "MIN"@ && skip_ws(s, m1) == s.len() {
                    Some(i32::MIN as int)
                } else {
                    None
                }
            } else {
                None
            }
        } else {
            None
        }
    }
}

fn exec_parse_const(s: &Vec<char>, i: usize) -> (r: Option<i64>)
    requires
        i <= s@.len(),
    ensures
        match r {
            Some(v) => spec_parse_const(s@, i as int) == Some(v as int),
            None => spec_parse_const(s@, i as int) is None,
        },
{
    if i < s.len() && s[i] == '-' {
        let p = exec_skip_ws(s, i + 1);
        match exec_scan_number(s, p) {
            Some((v, e)) => {
                if exec_skip_ws(s, e) == s.len() {
                    Some(-v)
                } else {
                    None
                }
            },
            None => None,
        }
    } else if i < s.len() && exec_is_digit(s[i]) {
        match exec_scan_number(s, i) {
            Some((v, e)) => {
                if exec_skip_ws(s, e) == s.len() {
                    Some(v)
                } else {
                    None
                }
            },
            None => None,
        }
    } else {
        let j = exec_ident_end(s, i);
        if j > i && chars_match(s, i, j, "i32") {
            let k = exec_skip_ws(s, j);
            if k < s.len() && k + 1 < s.len() && s[k] == ':' && s[k + 1] == ':' {
                let m0 = exec_skip_ws(s, k + 2);
                let m1 = exec_ident_end(s, m0);
                if m1 > m0 && chars_match(s, m0, m1, "MAX") && exec_skip_ws(s, m1) == s.len() {
                    Some(2147483647i64)
                } else if m1 > m0 && chars_match(s, m0, m1, "MIN") && exec_skip_ws(s, m1)
                    == s.len() {
                    Some(-2147483648i64)
                } else {
                    None
                }
            } else {
                None
            }
        } else {
            None
        }
    }
}

/// The comparison operator at `i` and the position after it. The two-sign
/// spellings are matched before their one-sign prefixes.
pub open spec fn spec_parse_op(s: Seq<char>, i: int) -> Option<(CmpOp, int)> {
    if 0 <= i && i + 2 <= s.len() && s[i] == '=' && s[i + 1] == '=' {
        Some((CmpOp::Eq, i + 2))
    } else if 0 <= i && i + 2 <= s.len() && s[i] == '!' && s[i + 1] == '=' {
        Some((CmpOp::Ne, i + 2))
    } else if 0 <= i && i + 2 <= s.len() && s[i] == '<' && s[i + 1] == '=' {
        Some((CmpOp::Le, i + 2))
    } else if 0 <= i && i + 2 <= s.len() && s[i] == '>' && s[i + 1] == '=' {
        Some((CmpOp::Ge, i + 2))
    } else if 0 <= i && i + 1 <= s.len() && s[i] == '<' {
        Some((CmpOp::Lt, i + 1))
    } else if 0 <= i && i + 1 <= s.len() && s[i] == '>' {
        Some((CmpOp::Gt, i + 1))
    } else {
        None
    }
}

/// A comparison against a constant, parsed to the end of the string.
pub open spec fn spec_parse_cmp_const(s: Seq<char>, i: int, cast: bool) -> Option<ErrorCond> {
    match spec_parse_op(s, i) {
        Some((op, e)) => match spec_parse_const(s, skip_ws(s, e)) {
            Some(v) => Some(ErrorCond { cast_to_i32: cast, op, rhs: v as i64 }),
            None => None,
        },
        None => None,
    }
}

fn exec_parse_op(s: &Vec<char>, i: usize) -> (r: Option<(CmpOp, usize)>)
    requires
        i <= s@.len(),
    ensures
        match r {
            Some((op, e)) => spec_parse_op(s@, i as int) == Some((op, e as int)) && i < e
                <= s@.len(),
            None => spec_parse_op(s@, i as int) is None,
        },
{
    if i < s.len() && i + 1 < s.len() && s[i] == '=' && s[i + 1] == '=' {
        Some((CmpOp::Eq, i + 2))
    } else if i < s.len() && i + 1 < s.len() && s[i] == '!' && s[i + 1] == '=' {
        Some((CmpOp::Ne, i + 2))
    } else if i < s.len() && i + 1 < s.len() && s[i] == '<' && s[i + 1] == '=' {
        Some((CmpOp::Le, i + 2))
    } else if i < s.len() && i + 1 < s.len() && s[i] == '>' && s[i + 1] == '=' {
        Some((CmpOp::Ge, i + 2))
    } else if i < s.len() && s[i] == '<' {
        Some((CmpOp::Lt, i + 1))
    } else if i < s.len() && s[i] == '>' {
        Some((CmpOp::Gt, i + 1))
    } else {
        None
    }
}

fn exec_parse_cmp_const(s: &Vec<char>, i: usize, cast: bool) -> (r: Option<ErrorCond>)
    requires
        i <= s@.len(),
    ensures
        r == spec_parse_cmp_const(s@, i as int, cast),
{
    match exec_parse_op(s, i) {
        Some((op, e)) => {
            let p = exec_skip_ws(s, e);
            match exec_parse_const(s, p) {
                Some(v) => Some(ErrorCond { cast_to_i32: cast, op, rhs: v }),
                None => None,
            }
        },
        None => None,
    }
}

/// The error-condition grammar: the result identifier, an optional cast to
/// 32-bit signed width, and a comparison against a constant.
pub open spec fn spec_parse_error_cond(s: Seq<char>) -> Option<ErrorCond> {
    let i0 = skip_ws(s, 0);
    let i1 = ident_end(s, i0);
    if !(i1 > i0 && s.subrange(i0, i1) == "result"@) {
        None
    } else {
        let i2 = skip_ws(s, i1);
        let j = ident_end(s, i2);
        if j > i2 {
            if s.subrange(i2, j) == "as"@ {
                let k0 = skip_ws(s, j);
                let k1 = ident_end(s, k0);
                if k1 > k0 && s.subrange(k0, k1) == "i32"@ {
                    spec_parse_cmp_const(s, skip_ws(s, k1), true)
                } else {
                    None
                }
            } else {
                None
            }
        } else {
            spec_parse_cmp_const(s, i2, false)
        }
    }
}

/// Parses an error-condition annotation; `None` is a generation-time fatal
/// error.
pub fn parse_error_cond(s: &str) -> (r: Option<ErrorCond>)
    ensures
        r == spec_parse_error_cond(s@),
{
    let v = str_to_chars(s);
    let i0 = exec_skip_ws(&v, 0);
    let i1 = exec_ident_end(&v, i0);
    if !(i1 > i0 && chars_match(&v, i0, i1, "result")) {
        return None;
    }
    let i2 = exec_skip_ws(&v, i1);
    let j = exec_ident_end(&v, i2);
    if j > i2 {
        if chars_match(&v, i2, j, "as") {
            let k0 = exec_skip_ws(&v, j);
            let k1 = exec_ident_end(&v, k0);
            if k1 > k0 && chars_match(&v, k0, k1, "i32") {
                let p = exec_skip_ws(&v, k1);
                exec_parse_cmp_const(&v, p, true)
            } else {
                None
            }
        } else {
            None
        }
    } else {
        exec_parse_cmp_const(&v, i2, false)
    }
}

/// An atom of a default-value expression: a literal, one of the 32-bit
/// extreme constants (written as literals after parsing), or a named
/// constant of the surrounding program.
#[derive(Debug, PartialEq, Eq)]
pub enum DefaultAtom {
    Lit(i64),
    /// A named constant; `call` records an empty call-argument list after
    /// the name.
    Named { name: String, call: bool },
}

/// One signed atom of an additive default-value expression.
#[derive(Debug, PartialEq, Eq)]
pub struct DefaultTerm {
    pub negative: bool,
    pub atom: DefaultAtom,
}

/// A parsed default-value annotation for an optional parameter: one of the
/// three zero keywords, or an additive chain of signed atoms.
#[derive(Debug, PartialEq, Eq)]
pub enum DefaultExpr {
    /// The null-pointer keyword.
    NullPtr,
    /// The mutable-null-pointer keyword.
    NullMutPtr,
    /// The inner type's generic default value, also taken when no default is
    /// annotated.
    GenericDefault,
    /// A sum of signed atoms, evaluated left to right.
    Sum(Vec<DefaultTerm>),
}

/// The mathematical value of an atom.
pub enum AtomView {
    Lit(int),
    Named(Seq<char>, bool),
}

/// The mathematical value of a signed atom.
pub struct TermView {
    pub negative: bool,
    pub atom: AtomView,
}

pub open spec fn atom_view(a: DefaultAtom) -> AtomView {
    match a {
        DefaultAtom::Lit(v) => AtomView::Lit(v as int),
        DefaultAtom::Named { name, call } => AtomView::Named(name@, call),
    }
}

pub open spec fn term_view(t: DefaultTerm) -> TermView {
    TermView { negative: t.negative, atom: atom_view(t.atom) }
}

pub open spec fn terms_view(ts: Seq<DefaultTerm>) -> Seq<TermView> {
    ts.map_values(|t: DefaultTerm| term_view(t))
}

/// The meaning of a default-value annotation string.
pub enum DefaultParse {
    NullPtr,
    NullMutPtr,
    GenericDefault,
    Sum(Seq<TermView>),
    Bad,
}

/// The mathematical value of a parsed default expression.
pub open spec fn default_view(e: DefaultExpr) -> DefaultParse {
    match e {
        DefaultExpr::NullPtr => DefaultParse::NullPtr,
        DefaultExpr::NullMutPtr => DefaultParse::NullMutPtr,
        DefaultExpr::GenericDefault => DefaultParse::GenericDefault,
        DefaultExpr::Sum(ts) => DefaultParse::Sum(terms_view(ts@)),
    }
}

impl Clone for DefaultExpr {
    fn clone(&self) -> (r: Self)
        ensures
            default_view(r) == default_view(*self),
    {
        match self {
            DefaultExpr::NullPtr => DefaultExpr::NullPtr,
            DefaultExpr::NullMutPtr => DefaultExpr::NullMutPtr,
            DefaultExpr::GenericDefault => DefaultExpr::GenericDefault,
            DefaultExpr::Sum(ts) => {
                let mut out: Vec<DefaultTerm> = Vec::new();
                let mut i: usize = 0;
                while i < ts.len()
                    invariant
                        i <= ts@.len(),
                        out@.len() == i,
                        forall|m: int|
                            0 <= m < i ==> term_view(#[trigger] out@[m]) == term_view(ts@[m]),
                    decreases ts@.len() - i,
                {
                    let t = &ts[i];
                    let atom = match &t.atom {
                        DefaultAtom::Lit(v) => DefaultAtom::Lit(*v),
                        DefaultAtom::Named { name, call } => DefaultAtom::Named {
                            name: name.clone(),
                            call: *call,
                        },
                    };
                    out.push(DefaultTerm { negative: t.negative, atom });
                    i = i + 1;
                }
                proof {
                    assert(terms_view(out@) =~= terms_view(ts@));
                }
                DefaultExpr::Sum(out)
            },
        }
    }
}

/// An atom at `i` and the position after it: a decimal literal with an
/// optional width suffix, the largest or smallest 32-bit signed value under
/// its path-style spelling, or a name with an optional empty call-argument
/// list. The 32-bit width name is reserved and is no constant by itself.
pub open spec fn spec_parse_atom(s: Seq<char>, i: int) -> Option<(AtomView, int)> {
    if 0 <= i < s.len() && is_digit(s[i]) {
        match spec_scan_number(s, i) {
            Some((v, e)) => Some((AtomView::Lit(v), e)),
            None => None,
        }
    } else {
        let j = ident_end(s, i);
        if 0 <= i && j > i && s.subrange(i, j) == "i32"@ {
            let k = skip_ws(s, j);
            if k + 2 <= s.len() && s[k] == ':' && s[k + 1] == ':' {
                let m0 = skip_ws(s, k + 2);
                let m1 = ident_end(s, m0);
                if m1 > m0 && s.subrange(m0, m1) == "MAX"@ {
                    Some((AtomView::Lit(i32::MAX as int), m1))
                } else if m1 > m0 && s.subrange(m0, m1) == "MIN"@ {
                    Some((AtomView::Lit(i32::MIN as int), m1))
                } else {
                    None
                }
            } else {
                None
            }
        } else if 0 <= i && j > i {
            let k = skip_ws(s, j);
            if k < s.len() && s[k] == '(' {
                let m = skip_ws(s, k + 1);
                if m < s.len() && s[m] == ')' {
                    Some((AtomView::Named(s.subrange(i, j), true), m + 1))
                } else {
                    None
                }
            } else {
                Some((AtomView::Named(s.subrange(i, j), false), j))
            }
        } else {
            None
        }
    }
}

/// A signed atom at `i`: an optional minus sign, then an atom.
pub open spec fn spec_parse_term(s: Seq<char>, i: int) -> Option<(TermView, int)> {
    if 0 <= i < s.len() && s[i] == '-' {
        match spec_parse_atom(s, skip_ws(s, i + 1)) {
            Some((a, e)) => Some((TermView { negative: true, atom: a }, e)),
            None => None,
        }
    } else {
        match spec_parse_atom(s, i) {
            Some((a, e)) => Some((TermView { negative: false, atom: a }, e)),
            None => None,
        }
    }
}

/// The terms of an additive chain from `i` to the end of the string; `flip`
/// carries a pending subtraction sign into the next term. The recursion is
/// bounded by `fuel`, which the top level seeds with the string's length:
/// every term after the first is preceded by an operator, so at least two
/// characters stand behind each level and the bound is never the limit.
pub open spec fn spec_parse_sum(s: Seq<char>, i: int, flip: bool, fuel: nat) -> Option<
    Seq<TermView>,
>
    decreases fuel,
{
    if fuel == 0 {
        None
    } else {
        match spec_parse_term(s, i) {
            Some((t0, e)) => {
                let t = TermView { negative: t0.negative != flip, atom: t0.atom };
                let k = skip_ws(s, e);
                if k == s.len() {
                    Some(seq![t])
                } else if k < s.len() && s[k] == '+' {
                    match spec_parse_sum(s, skip_ws(s, k + 1), false, (fuel - 1) as nat) {
                        Some(r) => Some(seq![t] + r),
                        None => None,
                    }
                } else if k < s.len() && s[k] == '-' {
                    match spec_parse_sum(s, skip_ws(s, k + 1), true, (fuel - 1) as nat) {
                        Some(r) => Some(seq![t] + r),
                        None => None,
                    }
                } else {
                    None
                }
            },
            None => None,
        }
    }
}

/// The default-expression grammar: one of the three zero keywords matched
/// against the whole string, or an additive chain of signed atoms.
pub open spec fn spec_parse_default(s: Seq<char>) -> DefaultParse {
    if s == "null"@ {
        DefaultParse::NullPtr
    } else if s == "null_mut"@ {
        DefaultParse::NullMutPtr
    } else if s == "default"@ {
        DefaultParse::GenericDefault
    } else {
        match spec_parse_sum(s, skip_ws(s, 0), false, s.len()) {
            Some(ts) => DefaultParse::Sum(ts),
            None => DefaultParse::Bad,
        }
    }
}

/// Whether `e` is the parse of the annotation string `s`.
pub open spec fn default_expr_matches(s: Seq<char>, e: DefaultExpr) -> bool {
    spec_parse_default(s) == default_view(e)
}

fn exec_parse_atom(s: &Vec<char>, i: usize) -> (r: Option<(DefaultAtom, usize)>)
    requires
        i <= s@.len(),
    ensures
        match r {
            Some((a, e)) => spec_parse_atom(s@, i as int) == Some((atom_view(a), e as int)) && i
                < e <= s@.len(),
            None => spec_parse_atom(s@, i as int) is None,
        },
{
    if i < s.len() && exec_is_digit(s[i]) {
        match exec_scan_number(s, i) {
            Some((v, e)) => Some((DefaultAtom::Lit(v), e)),
            None => None,
        }
    } else {
        let j = exec_ident_end(s, i);
        if j > i && chars_match(s, i, j, "i32") {
            let k = exec_skip_ws(s, j);
            if k < s.len() && k + 1 < s.len() && s[k] == ':' && s[k + 1] == ':' {
                let m0 = exec_skip_ws(s, k + 2);
                let m1 = exec_ident_end(s, m0);
                if m1 > m0 && chars_match(s, m0, m1, "MAX") {
                    Some((DefaultAtom::Lit(2147483647i64), m1))
                } else if m1 > m0 && chars_match(s, m0, m1, "MIN") {
                    Some((DefaultAtom::Lit(-2147483648i64), m1))
                } else {
                    None
                }
            } else {
                None
            }
        } else if j > i {
            let k = exec_skip_ws(s, j);
            if k < s.len() && s[k] == '(' {
                let m = exec_skip_ws(s, k + 1);
                if m < s.len() && s[m] == ')' {
                    Some((DefaultAtom::Named { name: chars_to_string(s, i, j), call: true }, m + 1))
                } else {
                    None
                }
            } else {
                Some((DefaultAtom::Named { name: chars_to_string(s, i, j), call: false }, j))
            }
        } else {
            None
        }
    }
}

fn exec_parse_term(s: &Vec<char>, i: usize) -> (r: Option<(DefaultTerm, usize)>)
    requires
        i <= s@.len(),
    ensures
        match r {
            Some((t, e)) => spec_parse_term(s@, i as int) == Some((term_view(t), e as int)) && e
                <= s@.len(),
            None => spec_parse_term(s@, i as int) is None,
        },
{
    if i < s.len() && s[i] == '-' {
        let p = exec_skip_ws(s, i + 1);
        match exec_parse_atom(s, p) {
            Some((a, e)) => Some((DefaultTerm { negative: true, atom: a }, e)),
            None => None,
        }
    } else {
        match exec_parse_atom(s, i) {
            Some((a, e)) => Some((DefaultTerm { negative: false, atom: a }, e)),
            None => None,
        }
    }
}

fn exec_parse_sum(s: &Vec<char>, i: usize, flip: bool, fuel: usize) -> (r: Option<
    Vec<DefaultTerm>,
>)
    requires
        i <= s@.len(),
    ensures
        match r {
            Some(ts) => spec_parse_sum(s@, i as int, flip, fuel as nat) == Some(terms_view(ts@)),
            None => spec_parse_sum(s@, i as int, flip, fuel as nat) is None,
        },
    decreases fuel,
{
    if fuel == 0 {
        return None;
    }
    match exec_parse_term(s, i) {
        Some((t0, e)) => {
            let t = DefaultTerm { negative: t0.negative != flip, atom: t0.atom };
            let ghost tv = term_view(t);
            let k = exec_skip_ws(s, e);
            if k == s.len() {
                let mut out: Vec<DefaultTerm> = Vec::new();
                out.push(t);
                proof {
                    assert(terms_view(out@) =~= seq![tv]);
                }
                Some(out)
            } else if s[k] == '+' || s[k] == '-' {
                let next_flip = s[k] == '-';
                let p = exec_skip_ws(s, k + 1);
                match exec_parse_sum(s, p, next_flip, fuel - 1) {
                    Some(mut rest) => {
                        let ghost rest0 = rest@;
                        let mut out: Vec<DefaultTerm> = Vec::new();
                        out.push(t);
                        out.append(&mut rest);
                        proof {
                            assert(terms_view(out@) =~= seq![tv] + terms_view(rest0));
                        }
                        Some(out)
                    },
                    None => None,
                }
            } else {
                None
            }
        },
        None => None,
    }
}

/// Parses a default-value annotation; `None` is a generation-time fatal
/// error.
pub fn parse_default_expr(s: &str) -> (r: Option<DefaultExpr>)
    ensures
        r is Some <==> !(spec_parse_default(s@) is Bad),
        match r {
            Some(e) => default_expr_matches(s@, e),
            None => true,
        },
{
    let v = str_to_chars(s);
    proof {
        assert(v@.subrange(0, v@.len() as int) =~= s@);
    }
    let n = v.len();
    if chars_match(&v, 0, n, "null") {
        return Some(DefaultExpr::NullPtr);
    }
    if chars_match(&v, 0, n, "null_mut") {
        return Some(DefaultExpr::NullMutPtr);
    }
    if chars_match(&v, 0, n, "default") {
        return Some(DefaultExpr::GenericDefault);
    }
    let i0 = exec_skip_ws(&v, 0);
    match exec_parse_sum(&v, i0, false, n) {
        Some(ts) => Some(DefaultExpr::Sum(ts)),
        None => None,
    }
}

} // verus!
