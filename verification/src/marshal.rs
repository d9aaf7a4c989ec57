//! The runtime meaning of an emitted wrapper.
//!
//! A wrapper runs the conversion recipes of its parameters in declaration
//! order, hands the resulting low-level values to the foreign call, and
//! classifies the raw result. The foreign call itself is opaque: its raw
//! result and the writes it performs through writable buffers are taken as an
//! input, and everything the wrapper guarantees holds for every such input.

use vstd::prelude::*;
use vstd::utf8::encode_utf8;

use crate::classify::category_of;
use crate::classify::Category;
use crate::classify::ConvStep;
use crate::dxlib_error::DxLibError;
use crate::emit::ErrorPolicy;
use crate::emit::FailureTag;
use crate::emit::WrapperDef;
use crate::emit::WrapperParam;
use crate::exprs::atom_view;
use crate::exprs::eval_cond;
use crate::exprs::spec_default_cond;
use crate::exprs::spec_eval_cond;
use crate::exprs::term_view;
use crate::exprs::terms_view;
use crate::exprs::AtomView;
use crate::exprs::DefaultAtom;
use crate::exprs::DefaultExpr;
use crate::exprs::TermView;
use crate::types::DeclaredType;
use crate::utils::CStringHolder;

verus! {

/// A caller-supplied argument value of an emitted wrapper. Scalars and
/// opaque handles are machine words; sequences and arrays are element
/// buffers; string-like values are owned text.
#[derive(Debug, PartialEq, Eq)]
pub enum ArgValue {
    Int(i64),
    OptInt(Option<i64>),
    Text(String),
    Buf(Vec<i64>),
}

fn copy_words(v: &Vec<i64>) -> (r: Vec<i64>)
    ensures
        r@ == v@,
{
    let mut r: Vec<i64> = Vec::new();
    let mut i: usize = 0;
    while i < v.len()
        invariant
            i <= v@.len(),
            r@ == v@.subrange(0, i as int),
        decreases v@.len() - i,
    {
        r.push(v[i]);
        i = i + 1;
        proof {
            assert(r@ =~= v@.subrange(0, i as int));
        }
    }
    proof {
        assert(r@ =~= v@);
    }
    r
}

/// The mathematical value of an argument.
pub enum ArgView {
    Int(int),
    OptInt(Option<int>),
    Text(Seq<char>),
    Buf(Seq<i64>),
}

impl View for ArgValue {
    type V = ArgView;

    open spec fn view(&self) -> ArgView {
        match self {
            ArgValue::Int(v) => ArgView::Int(*v as int),
            ArgValue::OptInt(o) => ArgView::OptInt(
                match o {
                    Some(x) => Some(*x as int),
                    None => None,
                },
            ),
            ArgValue::Text(s) => ArgView::Text(s@),
            ArgValue::Buf(b) => ArgView::Buf(b@),
        }
    }
}

impl Clone for ArgValue {
    fn clone(&self) -> (r: Self)
        ensures
            r@ == self@,
    {
        match self {
            ArgValue::Int(v) => ArgValue::Int(*v),
            ArgValue::OptInt(o) => ArgValue::OptInt(
                match o {
                    Some(x) => Some(*x),
                    None => None,
                },
            ),
            ArgValue::Text(s) => ArgValue::Text(s.clone()),
            ArgValue::Buf(b) => ArgValue::Buf(copy_words(b)),
        }
    }
}

/// A named constant of the surrounding program, made explicit so that a
/// default-value annotation can refer to it.
#[derive(Debug, PartialEq, Eq)]
pub struct ConstBinding {
    pub name: String,
    pub value: i64,
}

/// The first binding of `name` in the environment, from index `i` on.
pub open spec fn env_lookup(env: Seq<ConstBinding>, name: Seq<char>, i: int) -> Option<i64>
    decreases env.len() - i,
{
    if i < 0 || i >= env.len() {
        None
    } else if env[i].name@ == name {
        Some(env[i].value)
    } else {
        env_lookup(env, name, i + 1)
    }
}

fn exec_env_lookup(env: &Vec<ConstBinding>, name: &String) -> (r: Option<i64>)
    ensures
        r == env_lookup(env@, name@, 0),
{
    let mut j: usize = 0;
    while j < env.len()
        invariant
            j <= env@.len(),
            env_lookup(env@, name@, 0) == env_lookup(env@, name@, j as int),
        decreases env@.len() - j,
    {
        if env[j].name == *name {
            return Some(env[j].value);
        }
        j = j + 1;
    }
    None
}

/// The value of one atom of a default expression: a literal stands for
/// itself, a named constant is resolved in the environment.
pub open spec fn spec_atom_value(a: AtomView, env: Seq<ConstBinding>) -> Option<i64> {
    match a {
        AtomView::Lit(v) => Some(v as i64),
        AtomView::Named(n, _) => env_lookup(env, n, 0),
    }
}

/// The left fold of the signed atoms of an additive default expression onto
/// `acc`, with wraparound 64-bit arithmetic.
pub open spec fn spec_sum_value(
    ts: Seq<TermView>,
    k: int,
    acc: i64,
    env: Seq<ConstBinding>,
) -> Option<i64>
    decreases ts.len() - k,
{
    if k < 0 || k >= ts.len() {
        Some(acc)
    } else {
        match spec_atom_value(ts[k].atom, env) {
            Some(v) => spec_sum_value(
                ts,
                k + 1,
                (if ts[k].negative {
                    acc - v
                } else {
                    acc + v
                }) as i64,
                env,
            ),
            None => None,
        }
    }
}

/// The value substituted for an absent optional parameter: zero for the
/// three zero keywords and the unannotated generic default, else the value
/// of the annotated expression; absent exactly when a named constant of the
/// expression is unbound.
pub open spec fn spec_default_value(e: DefaultExpr, env: Seq<ConstBinding>) -> Option<i64> {
    match e {
        DefaultExpr::NullPtr => Some(0i64),
        DefaultExpr::NullMutPtr => Some(0i64),
        DefaultExpr::GenericDefault => Some(0i64),
        DefaultExpr::Sum(ts) => spec_sum_value(terms_view(ts@), 0, 0i64, env),
    }
}

fn exec_atom_value(a: &DefaultAtom, env: &Vec<ConstBinding>) -> (r: Option<i64>)
    ensures
        r == spec_atom_value(atom_view(*a), env@),
{
    match a {
        DefaultAtom::Lit(v) => Some(*v),
        DefaultAtom::Named { name, call: _ } => exec_env_lookup(env, name),
    }
}

fn exec_default_value(e: &DefaultExpr, env: &Vec<ConstBinding>) -> (r: Option<i64>)
    ensures
        r == spec_default_value(*e, env@),
{
    match e {
        DefaultExpr::NullPtr => Some(0i64),
        DefaultExpr::NullMutPtr => Some(0i64),
        DefaultExpr::GenericDefault => Some(0i64),
        DefaultExpr::Sum(ts) => {
            let ghost view = terms_view(ts@);
            let mut acc: i64 = 0;
            let mut k: usize = 0;
            while k < ts.len()
                invariant
                    k <= ts@.len(),
                    (*e matches DefaultExpr::Sum(x) && x == *ts),
                    view == terms_view(ts@),
                    spec_sum_value(view, 0, 0i64, env@) == spec_sum_value(
                        view,
                        k as int,
                        acc,
                        env@,
                    ),
                decreases ts@.len() - k,
            {
                let t = &ts[k];
                proof {
                    assert(view[k as int] == term_view(ts@[k as int]));
                }
                match exec_atom_value(&t.atom, env) {
                    Some(v) => {
                        let wide: i128 = if t.negative {
                            acc as i128 - v as i128
                        } else {
                            acc as i128 + v as i128
                        };
                        acc = #[verifier::truncate] (wide as i64);
                        k = k + 1;
                    },
                    None => {
                        proof {
                            assert(view[k as int].atom == atom_view(ts@[k as int].atom));
                            assert(spec_sum_value(view, k as int, acc, env@) is None);
                        }
                        return None;
                    },
                }
            }
            Some(acc)
        },
    }
}

/// A parameter whose derived pointer lets the foreign side write elements.
pub open spec fn writable_elem_buffer(t: DeclaredType) -> bool {
    t is BorrowMutSeq || t is MutOwnedSeq || t is MutFixedArray
}

fn exec_writable_elem_buffer(t: &DeclaredType) -> (b: bool)
    ensures
        b == writable_elem_buffer(*t),
{
    matches!(t, DeclaredType::BorrowMutSeq(_) | DeclaredType::MutOwnedSeq(_) | DeclaredType::MutFixedArray(_, _))
}

/// The declared element count of a fixed-size array type.
pub open spec fn array_len_of(t: DeclaredType) -> int {
    match t {
        DeclaredType::FixedArray(_, n) => n as int,
        DeclaredType::MutFixedArray(_, n) => n as int,
        _ => 0,
    }
}

/// Whether an argument value has the shape the declared type calls for. A
/// string-like value whose encoding contains a null byte has no
/// null-terminated image and is excluded.
pub open spec fn value_matches(t: DeclaredType, a: ArgView) -> bool {
    match category_of(t) {
        Category::OptionalWithDefault => a is OptInt,
        Category::BorrowableSeq => a is Buf,
        Category::StringLike => a matches ArgView::Text(s) && !encode_utf8(s).contains(0u8),
        Category::OwnedSequence => a is Buf,
        Category::FixedSizeArray => a matches ArgView::Buf(b) && b.len() == array_len_of(t),
        Category::MutStringBuffer => a matches ArgView::Text(s) && !encode_utf8(s).contains(0u8),
        Category::PassThrough => a is Int,
    }
}

/// Whether the argument list fits the wrapper's parameter list.
pub open spec fn args_match(params: Seq<WrapperParam>, args: Seq<ArgValue>) -> bool {
    &&& args.len() == params.len()
    &&& forall|i: int|
        0 <= i < params.len() ==> value_matches(params[i].ty, (#[trigger] args[i])@)
}

/// Internal consistency of a wrapper parameter: its recipe is the
/// classification of its declared type.
pub open spec fn param_wf(wp: WrapperParam) -> bool {
    &&& wp.recipe.category == category_of(wp.ty)
    &&& wp.recipe.wrapper_ty == wp.ty
    &&& wp.recipe.foreign_ty == crate::classify::foreign_of(wp.ty)
    &&& wp.recipe.holder == crate::classify::holder_of(wp.ty)
    &&& (wp.recipe.category is OptionalWithDefault ==> wp.recipe.step is SubstituteDefault)
    &&& (!(wp.recipe.category is OptionalWithDefault) ==> wp.recipe.step
        == crate::classify::step_of(wp.ty, None))
}

/// Internal consistency of a wrapper description.
pub open spec fn wrapper_wf(w: WrapperDef) -> bool {
    forall|i: int| 0 <= i < w.params@.len() ==> param_wf(#[trigger] w.params@[i])
}

/// Every wrapper the emitter produces is internally consistent.
pub proof fn lemma_emitted_wrapper_wf(sig: crate::types::RawSignature, w: WrapperDef)
    requires
        crate::emit::wrapper_matches(sig, w),
    ensures
        wrapper_wf(w),
{
    assert forall|i: int| 0 <= i < w.params@.len() implies param_wf(#[trigger] w.params@[i]) by {
        assert(crate::emit::param_matches(sig.params@[i], w.params@[i]));
    }
}

/// Whether every named default of the wrapper's optional parameters is bound
/// in the environment.
pub open spec fn defaults_resolved(params: Seq<WrapperParam>, env: Seq<ConstBinding>) -> bool {
    forall|i: int|
        0 <= i < params.len() ==> match (#[trigger] params[i]).recipe.step {
            ConvStep::SubstituteDefault(e) => spec_default_value(e, env) is Some,
            _ => true,
        }
}

/// What one foreign call did: its raw result, and for each parameter the
/// elements it wrote through that parameter's derived pointer, if any. The
/// wrapper promises nothing about which of these occur: its contract holds
/// of every effect the foreign side may produce.
#[derive(Debug, PartialEq, Eq)]
pub struct ForeignEffect {
    pub result: i64,
    pub writes: Vec<Option<Vec<i64>>>,
}

/// Whether the effect is one the foreign call could have produced: writes
/// land only through writable element buffers and stay within their extent.
pub open spec fn effect_matches(
    params: Seq<WrapperParam>,
    args: Seq<ArgValue>,
    eff: ForeignEffect,
) -> bool {
    &&& eff.writes@.len() == params.len()
    &&& forall|i: int|
        0 <= i < params.len() ==> match #[trigger] eff.writes@[i] {
            Some(v) => writable_elem_buffer(params[i].ty) && (args[i]@ matches ArgView::Buf(b)
                && v@.len() == b.len()),
            None => true,
        }
}

/// What the foreign side observes for one argument.
#[derive(Debug, PartialEq, Eq)]
pub enum LowArg {
    /// A machine word passed directly.
    Word(i64),
    /// A read-only null-terminated byte buffer, kept alive by its holder
    /// until the call has returned.
    CBytes(CStringHolder),
    /// A writable null-terminated byte buffer whose ownership passes to the
    /// callee; the wrapper never reclaims it.
    TransferredBytes(CStringHolder),
    /// A read-only element buffer.
    ConstWords(Vec<i64>),
    /// A writable element buffer.
    MutWords(Vec<i64>),
}

/// Whether `l` is the low-level image of argument `a` under the parameter's
/// conversion recipe.
pub open spec fn marshal_matches(
    wp: WrapperParam,
    env: Seq<ConstBinding>,
    a: ArgView,
    l: LowArg,
) -> bool {
    match category_of(wp.ty) {
        Category::OptionalWithDefault => {
            &&& l is Word
            &&& (a matches ArgView::OptInt(Some(x)) ==> l->Word_0 as int == x)
            &&& (a matches ArgView::OptInt(None) ==> (wp.recipe.step matches
                ConvStep::SubstituteDefault(e) && Some(l->Word_0) == spec_default_value(e, env)))
        },
        Category::BorrowableSeq => {
            if wp.ty is BorrowMutSeq {
                l matches LowArg::MutWords(b) && (a matches ArgView::Buf(ab) && b@ == ab)
            } else {
                l matches LowArg::ConstWords(b) && (a matches ArgView::Buf(ab) && b@ == ab)
            }
        },
        Category::StringLike => l matches LowArg::CBytes(h) && (a matches ArgView::Text(s)
            && h.bytes_view() == encode_utf8(s).push(0u8)),
        Category::OwnedSequence => {
            if wp.ty is MutOwnedSeq {
                l matches LowArg::MutWords(b) && (a matches ArgView::Buf(ab) && b@ == ab)
            } else {
                l matches LowArg::ConstWords(b) && (a matches ArgView::Buf(ab) && b@ == ab)
            }
        },
        Category::FixedSizeArray => {
            if wp.ty is MutFixedArray {
                l matches LowArg::MutWords(b) && (a matches ArgView::Buf(ab) && b@ == ab)
            } else {
                l matches LowArg::ConstWords(b) && (a matches ArgView::Buf(ab) && b@ == ab)
            }
        },
        Category::MutStringBuffer => l matches LowArg::TransferredBytes(h) && (a matches
            ArgView::Text(s) && h.bytes_view() == encode_utf8(s).push(0u8)),
        Category::PassThrough => l matches LowArg::Word(v) && (a matches ArgView::Int(x) && v
            as int == x),
    }
}

fn marshal_one(wp: &WrapperParam, a: &ArgValue, env: &Vec<ConstBinding>) -> (l: LowArg)
    requires
        param_wf(*wp),
        value_matches(wp.ty, a@),
        (match wp.recipe.step {
            ConvStep::SubstituteDefault(e) => spec_default_value(e, env@) is Some,
            _ => true,
        }),
    ensures
        marshal_matches(*wp, env@, a@, l),
{
    match wp.recipe.category {
        Category::OptionalWithDefault => {
            let v: i64 = match a {
                ArgValue::OptInt(Some(x)) => *x,
                ArgValue::OptInt(None) => match &wp.recipe.step {
                    ConvStep::SubstituteDefault(e) => match exec_default_value(e, env) {
                        Some(d) => d,
                        None => vstd::pervasive::unreached(),
                    },
                    _ => vstd::pervasive::unreached(),
                },
                _ => vstd::pervasive::unreached(),
            };
            LowArg::Word(v)
        },
        Category::StringLike => match a {
            ArgValue::Text(s) => LowArg::CBytes(CStringHolder::new(s.as_str())),
            _ => vstd::pervasive::unreached(),
        },
        Category::MutStringBuffer => match a {
            ArgValue::Text(s) => LowArg::TransferredBytes(CStringHolder::new(s.as_str())),
            _ => vstd::pervasive::unreached(),
        },
        Category::BorrowableSeq | Category::OwnedSequence | Category::FixedSizeArray => match a {
            ArgValue::Buf(b) => {
                if exec_writable_elem_buffer(&wp.ty) {
                    LowArg::MutWords(copy_words(b))
                } else {
                    LowArg::ConstWords(copy_words(b))
                }
            },
            _ => vstd::pervasive::unreached(),
        },
        Category::PassThrough => match a {
            ArgValue::Int(v) => LowArg::Word(*v),
            _ => vstd::pervasive::unreached(),
        },
    }
}

/// The outcome a wrapper returns: the raw (or substituted) result value, or
/// a tagged failure.
#[derive(Debug, PartialEq, Eq)]
pub enum CallOutcome {
    Value(i64),
    Failure(DxLibError),
}

/// The failure a wrapped signature reports: the lifecycle entry points carry
/// their distinguished tags, everything else the generic failure naming the
/// wrapper.
pub open spec fn tag_error(tag: FailureTag, name: String) -> DxLibError {
    match tag {
        FailureTag::Initialize => DxLibError::InitializeError,
        FailureTag::Finalize => DxLibError::FinalizeError,
        FailureTag::Generic => DxLibError::Other(name),
    }
}

/// The outcome of a wrapper for a raw foreign result, per its error policy:
/// a wrapped signature classifies the result by its error condition; an
/// opted-out signature substitutes the sentinel when the condition holds and
/// passes the raw result through otherwise.
pub open spec fn spec_outcome(w: WrapperDef, raw: i64) -> CallOutcome {
    if w.policy is Raw {
        if spec_eval_cond(w.cond, raw) {
            CallOutcome::Value(-1i64)
        } else {
            CallOutcome::Value(raw)
        }
    } else {
        if spec_eval_cond(w.cond, raw) {
            CallOutcome::Failure(tag_error(w.tag, w.name))
        } else {
            CallOutcome::Value(raw)
        }
    }
}

/// How one caller-visible argument looks after the call: elements the
/// foreign side wrote through the derived pointer are visible in the owned
/// buffer; every other argument is unchanged.
pub open spec fn after_matches(a: ArgView, w: Option<Vec<i64>>, a2: ArgView) -> bool {
    match w {
        Some(v) => a2 matches ArgView::Buf(b) && b == v@,
        None => a2 == a,
    }
}

/// Everything one wrapper invocation produced.
#[derive(Debug, PartialEq, Eq)]
pub struct WrapperRun {
    /// The classified outcome handed to the caller.
    pub outcome: CallOutcome,
    /// The low-level values the foreign side observed; the holders among
    /// them stayed alive for the whole call.
    pub foreign_view: Vec<LowArg>,
    /// The caller-visible argument values after the call.
    pub args_after: Vec<ArgValue>,
}

/// Runs one emitted wrapper: the conversion steps in parameter-declaration
/// order, the foreign call (whose raw result and buffer writes are the given
/// effect), and the result classification. Conversion never fails at call
/// time; only the post-call error condition classifies the call as failed.
pub fn run_wrapper(
    w: &WrapperDef,
    args: &Vec<ArgValue>,
    eff: &ForeignEffect,
    env: &Vec<ConstBinding>,
) -> (r: WrapperRun)
    requires
        wrapper_wf(*w),
        args_match(w.params@, args@),
        defaults_resolved(w.params@, env@),
        effect_matches(w.params@, args@, *eff),
    ensures
        r.outcome == spec_outcome(*w, eff.result),
        r.foreign_view@.len() == w.params@.len(),
        forall|i: int|
            0 <= i < w.params@.len() ==> marshal_matches(
                w.params@[i],
                env@,
                args@[i]@,
                #[trigger] r.foreign_view@[i],
            ),
        r.args_after@.len() == args@.len(),
        forall|i: int|
            0 <= i < args@.len() ==> after_matches(
                args@[i]@,
                eff.writes@[i],
                (#[trigger] r.args_after@[i])@,
            ),
{
    let mut foreign_view: Vec<LowArg> = Vec::new();
    let mut j: usize = 0;
    while j < w.params.len()
        invariant
            j <= w.params@.len(),
            wrapper_wf(*w),
            args_match(w.params@, args@),
            defaults_resolved(w.params@, env@),
            foreign_view@.len() == j,
            forall|i: int|
                0 <= i < j ==> marshal_matches(
                    w.params@[i],
                    env@,
                    args@[i]@,
                    #[trigger] foreign_view@[i],
                ),
        decreases w.params@.len() - j,
    {
        let low = marshal_one(&w.params[j], &args[j], env);
        foreign_view.push(low);
        j = j + 1;
    }
    let raw = eff.result;
    let failed = eval_cond(&w.cond, raw);
    let outcome = match w.policy {
        ErrorPolicy::Raw => if failed {
            CallOutcome::Value(-1i64)
        } else {
            CallOutcome::Value(raw)
        },
        ErrorPolicy::Wrapped => if failed {
            CallOutcome::Failure(
                match w.tag {
                    FailureTag::Initialize => DxLibError::InitializeError,
                    FailureTag::Finalize => DxLibError::FinalizeError,
                    FailureTag::Generic => DxLibError::Other(w.name.clone()),
                },
            )
        } else {
            CallOutcome::Value(raw)
        },
    };
    let mut args_after: Vec<ArgValue> = Vec::new();
    let mut j: usize = 0;
    while j < args.len()
        invariant
            j <= args@.len(),
            eff.writes@.len() == args@.len(),
            args_after@.len() == j,
            forall|i: int|
                0 <= i < j ==> after_matches(
                    args@[i]@,
                    eff.writes@[i],
                    (#[trigger] args_after@[i])@,
                ),
        decreases args@.len() - j,
    {
        match &eff.writes[j] {
            Some(v) => args_after.push(ArgValue::Buf(copy_words(v))),
            None => args_after.push(args[j].clone()),
        }
        j = j + 1;
    }
    WrapperRun { outcome, foreign_view, args_after }
}

/// For a wrapped signature with the default error condition, the error
/// classification triggers exactly when the raw result, taken at 32-bit
/// signed width, equals -1.
pub proof fn lemma_default_classification(w: WrapperDef, raw: i64)
    requires
        w.policy == ErrorPolicy::Wrapped,
        w.cond == spec_default_cond(),
    ensures
        spec_outcome(w, raw) is Failure <==> raw as i32 == -1i32,
{
}

/// For a signature with no annotations, the emitted wrapper is wrapped with
/// the default error condition, so its error classification triggers exactly
/// when the raw result, taken at 32-bit signed width, equals -1.
pub proof fn lemma_unannotated_signature(sig: crate::types::RawSignature, w: WrapperDef, raw: i64)
    requires
        crate::emit::wrapper_matches(sig, w),
        !sig.not_result,
        sig.error_condition is None,
    ensures
        spec_outcome(w, raw) is Failure <==> raw as i32 == -1i32,
{
    lemma_default_classification(w, raw);
}

/// For a signature that opted out of result wrapping, the wrapper returns
/// the raw foreign result unchanged, except that the sentinel -1 is
/// substituted when the (default or overridden) error condition holds; no
/// tagged failure is ever produced.
pub proof fn lemma_opted_out_passthrough(sig: crate::types::RawSignature, w: WrapperDef, raw: i64)
    requires
        crate::emit::wrapper_matches(sig, w),
        sig.not_result,
    ensures
        spec_eval_cond(w.cond, raw) ==> spec_outcome(w, raw) == CallOutcome::Value(-1i64),
        !spec_eval_cond(w.cond, raw) ==> spec_outcome(w, raw) == CallOutcome::Value(raw),
        spec_outcome(w, raw) is Value,
{
}

/// Calling a wrapper with an absent optional argument is observably
/// identical, on the foreign side, to calling it with the parameter's
/// resolved default value: the same low-level images satisfy both calls, and
/// the classified outcome never depends on the arguments at all.
pub proof fn lemma_absent_equals_default(
    wp: WrapperParam,
    env: Seq<ConstBinding>,
    d: i64,
    l: LowArg,
)
    requires
        category_of(wp.ty) is OptionalWithDefault,
        wp.recipe.step matches ConvStep::SubstituteDefault(e) && spec_default_value(e, env)
            == Some(d),
    ensures
        marshal_matches(wp, env, ArgView::OptInt(None), l) <==> marshal_matches(
            wp,
            env,
            ArgView::OptInt(Some(d as int)),
            l,
        ),
{
}

/// The whole-argument-list form: two argument lists that agree everywhere
/// except at one optional parameter, absent in the first and carrying the
/// parameter's resolved default in the second, admit exactly the same
/// foreign-side observations.
pub proof fn lemma_absent_equals_default_all(
    w: WrapperDef,
    env: Seq<ConstBinding>,
    k: int,
    d: i64,
    v1: Seq<ArgView>,
    v2: Seq<ArgView>,
    fv: Seq<LowArg>,
)
    requires
        0 <= k < w.params@.len(),
        category_of(w.params@[k].ty) is OptionalWithDefault,
        w.params@[k].recipe.step matches ConvStep::SubstituteDefault(e) && spec_default_value(
            e,
            env,
        ) == Some(d),
        v1.len() == w.params@.len(),
        v2.len() == w.params@.len(),
        v1[k] == ArgView::OptInt(None::<int>),
        v2[k] == ArgView::OptInt(Some(d as int)),
        forall|i: int| 0 <= i < v1.len() && i != k ==> v1[i] == v2[i],
    ensures
        (forall|i: int|
            0 <= i < w.params@.len() ==> marshal_matches(w.params@[i], env, v1[i], #[trigger] fv[i]))
            <==> (forall|i: int|
            0 <= i < w.params@.len() ==> marshal_matches(
                w.params@[i],
                env,
                v2[i],
                #[trigger] fv[i],
            )),
{
    lemma_absent_equals_default(w.params@[k], env, d, fv[k]);
}

/// The byte buffer a string-like parameter hands to the foreign side is
/// null-terminated and byte-identical, before the terminator, to the encoded
/// bytes of the wrapper-side value; its holder stays alive for the whole
/// call.
pub proof fn lemma_string_buffer_image(
    wp: WrapperParam,
    env: Seq<ConstBinding>,
    s: Seq<char>,
    l: LowArg,
)
    requires
        category_of(wp.ty) is StringLike,
        marshal_matches(wp, env, ArgView::Text(s), l),
    ensures
        l is CBytes,
        l->CBytes_0.bytes_view().len() == encode_utf8(s).len() + 1,
        l->CBytes_0.bytes_view().last() == 0u8,
        l->CBytes_0.bytes_view().take(encode_utf8(s).len() as int) == encode_utf8(s),
{
    assert(l->CBytes_0.bytes_view().take(encode_utf8(s).len() as int) =~= encode_utf8(s));
}

} // verus!
