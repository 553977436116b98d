//! Type checking of call arguments and of contract-call parameters.
use vstd::prelude::*;
use crate::decl::{
    field_index, symbol_of, ExprKind, Expression, Namespace, TyExpression, ASSET_ID_PARAM,
    COINS_PARAM, GAS_PARAM,
};
use crate::errors::CompileError;
use crate::types::{unifies, unify, Span, Ty};

verus! {

/// The type an expression checks to, if it checks.
pub open spec fn checked_ty(ns: Namespace, e: Expression) -> Option<Ty> {
    match e.kind {
        ExprKind::Literal(_) => Some(Ty::Numeric),
        ExprKind::Variable(n) => match symbol_of(ns, n) {
            Some(v) => Some(v.ty),
            None => None,
        },
        ExprKind::StorageAccess(f) => match field_index(ns, f) {
            Some(i) => Some(ns.storage_fields@[i as int].ty),
            None => None,
        },
        ExprKind::Typed(t) => Some(t),
        ExprKind::Error => Some(Ty::ErrorRecovery),
    }
}

/// The typed expression: the error placeholder where the expression does not check.
pub open spec fn checked_expr(ns: Namespace, e: Expression) -> TyExpression {
    match checked_ty(ns, e) {
        Some(t) => TyExpression { kind: e.kind, ty: t, span: e.span },
        None => TyExpression { kind: ExprKind::Error, ty: Ty::ErrorRecovery, span: e.span },
    }
}

/// The errors that checking an expression reports.
pub open spec fn check_errors(ns: Namespace, e: Expression) -> Seq<CompileError> {
    match e.kind {
        ExprKind::Variable(n) => if symbol_of(ns, n) is None {
            seq![CompileError::UnknownVariable { name: n, span: e.span }]
        } else {
            seq![]
        },
        ExprKind::StorageAccess(f) => if field_index(ns, f) is None {
            seq![CompileError::StorageFieldDoesNotExist { name: f, span: e.span }]
        } else {
            seq![]
        },
        _ => seq![],
    }
}

/// Type-checks one expression with no expected type, degrading to the error placeholder.
pub fn type_check_expression(ns: &Namespace, e: &Expression, errors: &mut Vec<CompileError>) -> (r: TyExpression)
    ensures
        r == checked_expr(*ns, *e),
        final(errors)@ == old(errors)@ + check_errors(*ns, *e),
{
    let placeholder = TyExpression { kind: ExprKind::Error, ty: Ty::ErrorRecovery, span: e.span };
    match e.kind {
        ExprKind::Literal(_) => TyExpression { kind: e.kind, ty: Ty::Numeric, span: e.span },
        ExprKind::Variable(n) => match ns.resolve_symbol(n) {
            Some(v) => TyExpression { kind: e.kind, ty: v.ty, span: e.span },
            None => {
                errors.push(CompileError::UnknownVariable { name: n, span: e.span });
                placeholder
            },
        },
        ExprKind::StorageAccess(f) => match ns.storage_field_index(f) {
            Some(i) => TyExpression { kind: e.kind, ty: ns.storage_fields[i].ty, span: e.span },
            None => {
                errors.push(CompileError::StorageFieldDoesNotExist { name: f, span: e.span });
                placeholder
            },
        },
        ExprKind::Typed(t) => TyExpression { kind: e.kind, ty: t, span: e.span },
        ExprKind::Error => TyExpression { kind: e.kind, ty: Ty::ErrorRecovery, span: e.span },
    }
}

/// The errors that checking the arguments reports, in argument order.
pub open spec fn args_errors(ns: Namespace, args: Seq<Expression>) -> Seq<CompileError>
    decreases args.len(),
{
    if args.len() == 0 {
        seq![]
    } else {
        args_errors(ns, args.drop_last()) + check_errors(ns, args.last())
    }
}

/// Type-checks every argument; a failing one becomes the error placeholder and the
/// others are still checked.
pub fn type_check_arguments(ns: &Namespace, args: &Vec<Expression>, errors: &mut Vec<CompileError>) -> (r: Vec<TyExpression>)
    ensures
        r@.len() == args@.len(),
        forall|i: int| 0 <= i < args@.len() ==> #[trigger] r@[i] == checked_expr(*ns, args@[i]),
        final(errors)@ == old(errors)@ + args_errors(*ns, args@),
{
    let mut out: Vec<TyExpression> = Vec::new();
    let mut i: usize = 0;
    while i < args.len()
        invariant
            i <= args@.len(),
            out@.len() == i,
            forall|j: int| 0 <= j < i ==> #[trigger] out@[j] == checked_expr(*ns, args@[j]),
            errors@ == old(errors)@ + args_errors(*ns, args@.take(i as int)),
        decreases args@.len() - i,
    {
        let t = type_check_expression(ns, &args[i], errors);
        out.push(t);
        assert(args@.take(i + 1).drop_last() =~= args@.take(i as int));
        assert(errors@ =~= old(errors)@ + args_errors(*ns, args@.take(i + 1)));
        i += 1;
    }
    assert(args@.take(args@.len() as int) =~= args@);
    out
}

/// A named parameter of a contract call, such as `gas: 5000`.
#[derive(PartialEq, Eq, Structural, Clone, Copy, Debug)]
pub struct CallParam {
    pub name: u64,
    pub value: Expression,
    pub span: Span,
}

/// The checked contract-call parameters; where one is given twice, the last counts.
#[derive(PartialEq, Eq, Structural, Clone, Copy, Debug)]
pub struct ContractCallArgs {
    pub gas: Option<TyExpression>,
    pub coins: Option<TyExpression>,
    pub asset_id: Option<TyExpression>,
}

pub open spec fn is_recognized(n: u64) -> bool {
    n == GAS_PARAM || n == COINS_PARAM || n == ASSET_ID_PARAM
}

/// The type a recognized parameter must have.
pub open spec fn param_ty(n: u64) -> Ty {
    if n == ASSET_ID_PARAM { Ty::B256 } else { Ty::UnsignedInteger(64) }
}

pub open spec fn count_named(params: Seq<CallParam>, n: u64) -> nat
    decreases params.len(),
{
    if params.len() == 0 {
        0
    } else {
        count_named(params.drop_last(), n) + if params.last().name == n { 1nat } else { 0nat }
    }
}

/// One error for each name given more than once, at the second time it is given.
pub open spec fn repeated_errors(params: Seq<CallParam>, span: Span) -> Seq<CompileError>
    decreases params.len(),
{
    if params.len() == 0 {
        seq![]
    } else {
        let n = params.last().name;
        repeated_errors(params.drop_last(), span) + if count_named(params.drop_last(), n) == 1 {
            seq![CompileError::ContractCallParamRepeated { name: n, span }]
        } else {
            seq![]
        }
    }
}

/// The errors that one parameter reports.
pub open spec fn param_errors(ns: Namespace, p: CallParam) -> Seq<CompileError> {
    if !is_recognized(p.name) {
        seq![CompileError::UnrecognizedContractParam { name: p.name, span: p.span }]
    } else {
        let t = checked_expr(ns, p.value);
        check_errors(ns, p.value) + if unifies(t.ty, param_ty(p.name)) {
            seq![]
        } else {
            seq![CompileError::ArgumentTypeMismatch { provided: t.ty, declared: param_ty(p.name), span: p.value.span }]
        }
    }
}

pub open spec fn params_errors(ns: Namespace, params: Seq<CallParam>) -> Seq<CompileError>
    decreases params.len(),
{
    if params.len() == 0 {
        seq![]
    } else {
        params_errors(ns, params.drop_last()) + param_errors(ns, params.last())
    }
}

/// The checked value of the last parameter named `n`.
pub open spec fn last_named(ns: Namespace, params: Seq<CallParam>, n: u64) -> Option<TyExpression>
    decreases params.len(),
{
    if params.len() == 0 {
        None
    } else if params.last().name == n {
        Some(checked_expr(ns, params.last().value))
    } else {
        last_named(ns, params.drop_last(), n)
    }
}

/// How many of the first `end` parameters are named `n`.
pub fn count_param(params: &Vec<CallParam>, n: u64, end: usize) -> (r: usize)
    requires
        end <= params@.len(),
    ensures
        r == count_named(params@.take(end as int), n),
{
    let mut c: usize = 0;
    let mut i: usize = 0;
    while i < end
        invariant
            end <= params@.len(),
            i <= end,
            c == count_named(params@.take(i as int), n),
            c <= i,
        decreases end - i,
    {
        assert(params@.take(i + 1).drop_last() =~= params@.take(i as int));
        if params[i].name == n {
            c += 1;
        }
        i += 1;
    }
    c
}

/// Checks one recognized parameter against the type its name demands.
fn type_check_param(ns: &Namespace, p: &CallParam, errors: &mut Vec<CompileError>) -> (r: TyExpression)
    requires
        is_recognized(p.name),
    ensures
        r == checked_expr(*ns, p.value),
        final(errors)@ == old(errors)@ + param_errors(*ns, *p),
{
    let t = type_check_expression(ns, &p.value, errors);
    let expected = if p.name == ASSET_ID_PARAM { Ty::B256 } else { Ty::UnsignedInteger(64) };
    if !unify(t.ty, expected) {
        errors.push(CompileError::ArgumentTypeMismatch { provided: t.ty, declared: expected, span: p.value.span });
    }
    assert(final(errors)@ =~= old(errors)@ + param_errors(*ns, *p));
    t
}

/// Validates the named parameters of a contract call: a name given more than once is
/// reported once, an unknown name once per occurrence, and each legal value is checked
/// against its type.
pub fn check_contract_call_params(ns: &Namespace, params: &Vec<CallParam>, span: Span, errors: &mut Vec<CompileError>) -> (r: ContractCallArgs)
    ensures
        final(errors)@ == old(errors)@ + repeated_errors(params@, span) + params_errors(*ns, params@),
        r.gas == last_named(*ns, params@, GAS_PARAM),
        r.coins == last_named(*ns, params@, COINS_PARAM),
        r.asset_id == last_named(*ns, params@, ASSET_ID_PARAM),
{
    let mut k: usize = 0;
    while k < params.len()
        invariant
            k <= params@.len(),
            errors@ == old(errors)@ + repeated_errors(params@.take(k as int), span),
        decreases params@.len() - k,
    {
        assert(params@.take(k + 1).drop_last() =~= params@.take(k as int));
        let n = params[k].name;
        if count_param(params, n, k) == 1 {
            errors.push(CompileError::ContractCallParamRepeated { name: n, span });
        }
        assert(errors@ =~= old(errors)@ + repeated_errors(params@.take(k + 1), span));
        k += 1;
    }
    assert(params@.take(params@.len() as int) =~= params@);
    let ghost base = errors@;
    let mut out = ContractCallArgs { gas: None, coins: None, asset_id: None };
    let mut i: usize = 0;
    while i < params.len()
        invariant
            i <= params@.len(),
            errors@ == base + params_errors(*ns, params@.take(i as int)),
            out.gas == last_named(*ns, params@.take(i as int), GAS_PARAM),
            out.coins == last_named(*ns, params@.take(i as int), COINS_PARAM),
            out.asset_id == last_named(*ns, params@.take(i as int), ASSET_ID_PARAM),
        decreases params@.len() - i,
    {
        let p = &params[i];
        assert(params@.take(i + 1).drop_last() =~= params@.take(i as int));
        if p.name == GAS_PARAM {
            out.gas = Some(type_check_param(ns, p, errors));
        } else if p.name == COINS_PARAM {
            out.coins = Some(type_check_param(ns, p, errors));
        } else if p.name == ASSET_ID_PARAM {
            out.asset_id = Some(type_check_param(ns, p, errors));
        } else {
            errors.push(CompileError::UnrecognizedContractParam { name: p.name, span: p.span });
        }
        assert(errors@ =~= base + params_errors(*ns, params@.take(i + 1)));
        i += 1;
    }
    assert(params@.take(params@.len() as int) =~= params@);
    assert(errors@ =~= old(errors)@ + repeated_errors(params@, span) + params_errors(*ns, params@));
    out
}

/// Whether static analysis fails to show that an amount is always zero: only a literal
/// zero is known to be zero.
pub fn possibly_nonzero(e: &TyExpression) -> (r: bool)
    ensures
        r == (e.kind != ExprKind::Literal(0)),
{
    match e.kind {
        ExprKind::Literal(v) => v != 0,
        _ => true,
    }
}

} // verus!
