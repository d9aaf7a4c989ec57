//! The binding emitter: turns a link target and an ordered signature list
//! into one foreign-call declaration and one wrapper description per
//! signature.
//!
//! A signature that cannot be emitted (absent return type, destructured
//! parameter pattern, malformed annotation expression) is a generation-time
//! fatal error: the whole batch is refused and the first offending signature,
//! in declaration order, is reported.

use vstd::prelude::*;
use vstd::string::StringExecFns;

use crate::classify::classify;
use crate::classify::category_of;
use crate::classify::foreign_of;
use crate::classify::holder_of;
use crate::classify::ConvStep;
use crate::classify::ConversionRecipe;
use crate::classify::ForeignType;
use crate::classify::ParamSpec;
use crate::exprs::default_cond;
use crate::exprs::default_expr_matches;
use crate::exprs::default_view;
use crate::exprs::parse_default_expr;
use crate::exprs::DefaultParse;
use crate::exprs::parse_error_cond;
use crate::exprs::spec_default_cond;
use crate::exprs::spec_parse_default;
use crate::exprs::spec_parse_error_cond;
use crate::exprs::DefaultExpr;
use crate::exprs::ErrorCond;
use crate::types::DeclaredType;
use crate::types::ParamPattern;
use crate::types::RawParam;
use crate::types::RawSignature;

verus! {

/// How a wrapper reports the foreign result: classified into a tagged
/// success/failure outcome, or returned raw with a sentinel substituted on
/// failure.
#[derive(Debug, Clone, Copy, PartialEq, Eq, Structural)]
pub enum ErrorPolicy {
    Wrapped,
    Raw,
}

/// The failure tag a wrapped signature produces when its error condition
/// holds: the two lifecycle entry points carry distinguished tags.
#[derive(Debug, Clone, Copy, PartialEq, Eq, Structural)]
pub enum FailureTag {
    Initialize,
    Finalize,
    Generic,
}

/// One parameter of an emitted wrapper: its name, its wrapper-facing
/// declared type, and its conversion recipe.
#[derive(Debug, PartialEq, Eq)]
pub struct WrapperParam {
    pub name: String,
    pub ty: DeclaredType,
    pub recipe: ConversionRecipe,
}

/// One emitted foreign-call declaration, bound to the enclosing module's
/// link target under a fixed calling convention.
#[derive(Debug, PartialEq, Eq)]
pub struct ForeignDecl {
    /// The foreign symbol: a fixed prefix plus the declared identifier.
    pub symbol: String,
    pub params: Vec<ForeignType>,
    pub ret: DeclaredType,
}

/// One emitted wrapper description: everything the wrapper's runtime
/// behaviour is determined by.
#[derive(Debug, PartialEq, Eq)]
pub struct WrapperDef {
    /// The wrapper-visible name: the alias annotation if present, else the
    /// declared identifier.
    pub name: String,
    /// The foreign symbol the wrapper invokes.
    pub symbol: String,
    pub params: Vec<WrapperParam>,
    pub ret: DeclaredType,
    pub policy: ErrorPolicy,
    pub cond: ErrorCond,
    pub tag: FailureTag,
}

/// The emitted module: one declaration and one wrapper per signature, in
/// declaration order, against one link target.
#[derive(Debug, PartialEq, Eq)]
pub struct GeneratedModule {
    pub link_name: String,
    pub decls: Vec<ForeignDecl>,
    pub wrappers: Vec<WrapperDef>,
}

/// A generation-time fatal error, naming the offending signature.
#[derive(Debug, PartialEq, Eq)]
pub enum GenError {
    /// A parameter is bound to a destructuring pattern rather than a simple
    /// name.
    MalformedPattern { sig: String, param_index: usize },
    /// The signature's return type is absent.
    MissingReturnType { sig: String },
    /// The error-condition annotation does not parse.
    BadErrorCondition { sig: String },
    /// The default-value annotation of an optional parameter does not parse.
    BadDefaultExpr { sig: String, param: String },
}

/// Whether a parameter's default-value annotation is acceptable: it is only
/// ever parsed when the declared type is an optional.
pub open spec fn default_ok(p: RawParam) -> bool {
    !(p.ty is Optional) || match p.default_expr {
        None => true,
        Some(s) => !(spec_parse_default(s@) is Bad),
    }
}

/// Whether the signature's error-condition annotation is acceptable.
pub open spec fn cond_ok(sig: RawSignature) -> bool {
    match sig.error_condition {
        None => true,
        Some(s) => spec_parse_error_cond(s@) is Some,
    }
}

/// The first fatal error among a signature's parameters, in declaration
/// order: a destructured pattern is reported before the parameter's own
/// annotations are looked at.
pub open spec fn first_param_error(sig: RawSignature, j: int) -> Option<GenError>
    decreases sig.params@.len() - j,
{
    if j < 0 || j >= sig.params@.len() {
        None
    } else {
        let p = sig.params@[j];
        if !(p.pattern is Name) {
            Some(GenError::MalformedPattern { sig: sig.ident, param_index: j as usize })
        } else if !default_ok(p) {
            Some(GenError::BadDefaultExpr { sig: sig.ident, param: p.pattern->Name_0 })
        } else {
            first_param_error(sig, j + 1)
        }
    }
}

/// The first fatal error of one signature: an unresolvable return type is
/// reported first, then a malformed error condition, then the parameters in
/// order.
pub open spec fn first_sig_error(sig: RawSignature) -> Option<GenError> {
    if sig.ret is None {
        Some(GenError::MissingReturnType { sig: sig.ident })
    } else if !cond_ok(sig) {
        Some(GenError::BadErrorCondition { sig: sig.ident })
    } else {
        first_param_error(sig, 0)
    }
}

/// The first fatal error of the batch, from signature `k` on.
pub open spec fn first_error_from(sigs: Seq<RawSignature>, k: int) -> Option<GenError>
    decreases sigs.len() - k,
{
    if k < 0 || k >= sigs.len() {
        None
    } else {
        match first_sig_error(sigs[k]) {
            Some(e) => Some(e),
            None => first_error_from(sigs, k + 1),
        }
    }
}

/// The wrapper-visible name of a signature.
pub open spec fn wrapper_name_of(sig: RawSignature) -> Seq<char> {
    match sig.alias {
        Some(a) => a@,
        None => sig.ident@,
    }
}

/// The failure tag of a wrapper name: the two lifecycle entry points are a
/// closed, fixed special case; no other name receives a distinguished tag.
pub open spec fn tag_of(name: Seq<char>) -> FailureTag {
    if name == "DxLib_Init"@ {
        FailureTag::Initialize
    } else if name == "DxLib_End"@ {
        FailureTag::Finalize
    } else {
        FailureTag::Generic
    }
}

/// Whether `c` is the signature's resolved error condition: the parsed
/// override if annotated, else the default predicate.
pub open spec fn cond_matches(sig: RawSignature, c: ErrorCond) -> bool {
    match sig.error_condition {
        None => c == spec_default_cond(),
        Some(s) => spec_parse_error_cond(s@) == Some(c),
    }
}

/// Whether `st` is the conversion step of the declared parameter: for an
/// optional, the substitution carries the parsed default annotation or the
/// generic zero; every other category's step is fixed by the type.
pub open spec fn step_matches(p: RawParam, st: ConvStep) -> bool {
    if p.ty is Optional {
        match p.default_expr {
            None => st matches ConvStep::SubstituteDefault(e) && default_view(e)
                == DefaultParse::GenericDefault,
            Some(s) => st matches ConvStep::SubstituteDefault(e) && default_expr_matches(s@, e),
        }
    } else {
        st == crate::classify::step_of(p.ty, None)
    }
}

/// Whether an emitted wrapper parameter is the classification of the
/// declared parameter.
pub open spec fn param_matches(p: RawParam, wp: WrapperParam) -> bool {
    &&& p.pattern matches ParamPattern::Name(n) && wp.name == n
    &&& wp.ty == p.ty
    &&& wp.recipe.category == category_of(p.ty)
    &&& wp.recipe.wrapper_ty == p.ty
    &&& wp.recipe.foreign_ty == foreign_of(p.ty)
    &&& wp.recipe.holder == holder_of(p.ty)
    &&& step_matches(p, wp.recipe.step)
}

/// Whether an emitted foreign declaration belongs to the signature: the
/// symbol is the fixed prefix plus the declared identifier, the parameter
/// list is foreign-facing, and the return type is the declared one.
pub open spec fn decl_matches(sig: RawSignature, d: ForeignDecl) -> bool {
    &&& d.symbol@ == "dx_"@ + sig.ident@
    &&& d.ret == sig.ret->Some_0
    &&& d.params@.len() == sig.params@.len()
    &&& forall|j: int|
        0 <= j < sig.params@.len() ==> d.params@[j] == foreign_of(#[trigger] sig.params@[j].ty)
}

/// Whether an emitted wrapper belongs to the signature.
pub open spec fn wrapper_matches(sig: RawSignature, w: WrapperDef) -> bool {
    &&& w.name@ == wrapper_name_of(sig)
    &&& w.symbol@ == "dx_"@ + sig.ident@
    &&& w.ret == sig.ret->Some_0
    &&& w.policy == (if sig.not_result {
        ErrorPolicy::Raw
    } else {
        ErrorPolicy::Wrapped
    })
    &&& cond_matches(sig, w.cond)
    &&& w.tag == tag_of(w.name@)
    &&& w.params@.len() == sig.params@.len()
    &&& forall|j: int|
        0 <= j < sig.params@.len() ==> param_matches(sig.params@[j], #[trigger] w.params@[j])
}

/// Whether the emitted module is the faithful emission of the batch.
pub open spec fn module_matches(lib_name: String, sigs: Seq<RawSignature>, m: GeneratedModule) -> bool {
    &&& m.link_name == lib_name
    &&& m.decls@.len() == sigs.len()
    &&& m.wrappers@.len() == sigs.len()
    &&& forall|i: int| 0 <= i < sigs.len() ==> decl_matches(sigs[i], #[trigger] m.decls@[i])
    &&& forall|i: int| 0 <= i < sigs.len() ==> wrapper_matches(sigs[i], #[trigger] m.wrappers@[i])
}

/// Derived foreign symbols never collide as long as declared identifiers
/// are unique: the fixed prefix keeps the identifier recoverable.
pub proof fn lemma_symbol_injective(a: Seq<char>, b: Seq<char>)
    ensures
        "dx_"@ + a == "dx_"@ + b ==> a == b,
{
    reveal_strlit("dx_");
    if "dx_"@ + a == "dx_"@ + b {
        assert(a =~= ("dx_"@ + a).skip(3));
        assert(b =~= ("dx_"@ + b).skip(3));
    }
}

/// Emits the module for a link target and a signature batch: one foreign
/// declaration and one wrapper per signature, in declaration order, or the
/// batch's first generation-time fatal error.
pub fn emit(lib_name: String, sigs: &Vec<RawSignature>) -> (r: Result<GeneratedModule, GenError>)
    ensures
        match r {
            Ok(m) => first_error_from(sigs@, 0) is None && module_matches(lib_name, sigs@, m),
            Err(e) => first_error_from(sigs@, 0) == Some(e),
        },
{
    let ghost orig_lib = lib_name;
    let mut decls: Vec<ForeignDecl> = Vec::new();
    let mut wrappers: Vec<WrapperDef> = Vec::new();
    let init_name = String::from_str("DxLib_Init");
    let end_name = String::from_str("DxLib_End");
    let mut k: usize = 0;
    while k < sigs.len()
        invariant
            k <= sigs@.len(),
            first_error_from(sigs@, 0) == first_error_from(sigs@, k as int),
            decls@.len() == k,
            wrappers@.len() == k,
            forall|i: int| 0 <= i < k ==> decl_matches(sigs@[i], #[trigger] decls@[i]),
            forall|i: int| 0 <= i < k ==> wrapper_matches(sigs@[i], #[trigger] wrappers@[i]),
            init_name@ == "DxLib_Init"@,
            end_name@ == "DxLib_End"@,
        decreases sigs@.len() - k,
    {
        let sig = &sigs[k];
        let ret = match &sig.ret {
            Some(rt) => rt.clone(),
            None => {
                return Err(GenError::MissingReturnType { sig: sig.ident.clone() });
            },
        };
        let cond = match &sig.error_condition {
            None => default_cond(),
            Some(s) => match parse_error_cond(s.as_str()) {
                Some(c) => c,
                None => {
                    return Err(GenError::BadErrorCondition { sig: sig.ident.clone() });
                },
            },
        };
        let mut foreign_params: Vec<ForeignType> = Vec::new();
        let mut wrapper_params: Vec<WrapperParam> = Vec::new();
        let mut j: usize = 0;
        while j < sig.params.len()
            invariant
                k < sigs@.len(),
                *sig == sigs@[k as int],
                sig.ret is Some,
                cond_ok(*sig),
                first_error_from(sigs@, 0) == first_error_from(sigs@, k as int),
                j <= sig.params@.len(),
                first_param_error(*sig, 0) == first_param_error(*sig, j as int),
                foreign_params@.len() == j,
                wrapper_params@.len() == j,
                forall|i: int|
                    0 <= i < j ==> foreign_params@[i] == foreign_of(
                        #[trigger] sig.params@[i].ty,
                    ),
                forall|i: int|
                    0 <= i < j ==> param_matches(sig.params@[i], #[trigger] wrapper_params@[i]),
            decreases sig.params@.len() - j,
        {
            let p = &sig.params[j];
            let name = match &p.pattern {
                ParamPattern::Name(n) => n.clone(),
                ParamPattern::Destructured => {
                    return Err(GenError::MalformedPattern { sig: sig.ident.clone(), param_index: j });
                },
            };
            let is_optional = matches!(&p.ty, DeclaredType::Optional(_));
            let default = if is_optional {
                match &p.default_expr {
                    None => None,
                    Some(s) => match parse_default_expr(s.as_str()) {
                        Some(e) => Some(e),
                        None => {
                            return Err(GenError::BadDefaultExpr { sig: sig.ident.clone(), param: name });
                        },
                    },
                }
            } else {
                None
            };
            let pspec = ParamSpec { name, ty: p.ty.clone(), default };
            let recipe = classify(&pspec);
            foreign_params.push(recipe.foreign_ty.clone());
            wrapper_params.push(WrapperParam { name: pspec.name, ty: pspec.ty, recipe });
            j = j + 1;
        }
        let symbol = String::from_str("dx_").concat(sig.ident.as_str());
        let name = match &sig.alias {
            Some(a) => a.clone(),
            None => sig.ident.clone(),
        };
        let tag = if name == init_name {
            FailureTag::Initialize
        } else if name == end_name {
            FailureTag::Finalize
        } else {
            FailureTag::Generic
        };
        let policy = if sig.not_result {
            ErrorPolicy::Raw
        } else {
            ErrorPolicy::Wrapped
        };
        decls.push(ForeignDecl { symbol: symbol.clone(), params: foreign_params, ret: ret.clone() });
        wrappers.push(WrapperDef { name, symbol, params: wrapper_params, ret, policy, cond, tag });
        k = k + 1;
    }
    Ok(GeneratedModule { link_name: lib_name, decls, wrappers })
}

} // verus!
