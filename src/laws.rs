//! Laws of call checking, stated over the specifications of the checks.
use vstd::prelude::*;
use crate::application::{
    address_fault, arity_fault, call_accepted, call_args, coins_rejected, mutability_fault,
    shape_fault, storage_fault, takes_self, typed_args, visible,
};
use crate::arguments::{
    count_named, is_recognized, last_named, params_errors, repeated_errors, CallParam,
};
use crate::decl::{symbol_of, ExprKind, Expression, FunctionDecl, Namespace, TyExpression, COINS_PARAM};
use crate::errors::CompileError;
use crate::resolve::{is_instance_of, subst_from, MethodName, TypeBinding};
use crate::types::{unifies, Span, Ty};

verus! {

/// A call whose arguments match the callee's parameters in number and type is accepted,
/// provided no other check objects to it.
pub proof fn lemma_matching_call_accepted(ns: Namespace, d: FunctionDecl, binding: TypeBinding, params: Seq<CallParam>, args: Seq<Expression>, span: Span)
    requires
        call_args(d, typed_args(ns, args)).len() == d.parameters@.len(),
        forall|i: int| 0 <= i < d.parameters@.len()
            ==> unifies(#[trigger] call_args(d, typed_args(ns, args))[i].ty, d.parameters@[i].ty),
        visible(d, span),
        !coins_rejected(ns, d, params),
        !storage_fault(ns, args),
        !shape_fault(d, binding.inner),
        !mutability_fault(ns, d, typed_args(ns, args)),
        !address_fault(d, typed_args(ns, args)),
    ensures
        call_accepted(ns, d, binding, params, args, span),
{
}

/// A call with another number of arguments than the callee has parameters is never
/// accepted, whatever the types of the arguments.
pub proof fn lemma_arity_mismatch_rejected(ns: Namespace, d: FunctionDecl, binding: TypeBinding, params: Seq<CallParam>, args: Seq<Expression>, span: Span)
    requires
        call_args(d, typed_args(ns, args)).len() != d.parameters@.len(),
    ensures
        arity_fault(d, typed_args(ns, args)),
        !call_accepted(ns, d, binding, params, args, span),
{
}

/// A private method called from another unit is never accepted.
pub proof fn lemma_private_rejected(ns: Namespace, d: FunctionDecl, binding: TypeBinding, params: Seq<CallParam>, args: Seq<Expression>, span: Span)
    requires
        !d.is_public,
        d.span.unit != span.unit,
    ensures
        !call_accepted(ns, d, binding, params, args, span),
{
}

proof fn lemma_absent_has_no_last(ns: Namespace, params: Seq<CallParam>, n: u64)
    requires
        count_named(params, n) == 0,
    ensures
        last_named(ns, params, n) is None,
    decreases params.len(),
{
    if params.len() > 0 {
        lemma_absent_has_no_last(ns, params.drop_last(), n);
    }
}

/// Sending a possibly nonzero amount of coins to a method that is not payable is
/// rejected; leaving `coins` out never is.
pub proof fn lemma_coins_and_payability(ns: Namespace, d: FunctionDecl, params: Seq<CallParam>)
    ensures
        (d.is_contract_call && !d.is_payable && (last_named(ns, params, COINS_PARAM) matches Some(c)
            && c.kind != ExprKind::Literal(0))) ==> coins_rejected(ns, d, params),
        count_named(params, COINS_PARAM) == 0 ==> !coins_rejected(ns, d, params),
{
    if count_named(params, COINS_PARAM) == 0 {
        lemma_absent_has_no_last(ns, params, COINS_PARAM);
    }
}

/// A method that takes `self` mutably, called on an immutable binding, is rejected; on a
/// mutable binding that check passes.
pub proof fn lemma_mutable_receiver(ns: Namespace, d: FunctionDecl, t: Seq<TyExpression>)
    requires
        t.len() > 0,
        d.parameters@.len() > 0,
        d.parameters@[0].is_mutable,
        t[0].kind is Variable,
    ensures
        (symbol_of(ns, t[0].kind->Variable_0) matches Some(v) && !v.is_mutable) ==> mutability_fault(ns, d, t),
        (symbol_of(ns, t[0].kind->Variable_0) matches Some(v) && (!v.is_constant && v.is_mutable)) ==> !mutability_fault(ns, d, t),
{
}

/// Two instantiations of `fn id<T>(self, v: T) -> T` for argument types `a` and `b` both
/// link to the generic declaration and return `a` and `b`.
pub proof fn lemma_instances_of_generic(orig: FunctionDecl, p: u64, g: usize, i1: FunctionDecl, a: Ty, i2: FunctionDecl, b: Ty)
    requires
        orig.type_params@ == seq![p],
        orig.return_type == Ty::Generic(p),
        is_instance_of(i1, orig, seq![a], g),
        is_instance_of(i2, orig, seq![b], g),
    ensures
        i1.parent == Some(g),
        i2.parent == Some(g),
        i1.return_type == a,
        i2.return_type == b,
        a != b ==> i1.return_type != i2.return_type,
{
    assert(seq![p].len() == 1 && seq![p][0] == p);
    reveal_with_fuel(subst_from, 2);
    assert(seq![a][0] == a);
    assert(seq![b][0] == b);
    assert(subst_from(Ty::Generic(p), seq![p], seq![a], 0) == a);
    assert(subst_from(Ty::Generic(p), seq![p], seq![b], 0) == b);
}

/// How many times `e` occurs in `errs`.
pub open spec fn count_error(errs: Seq<CompileError>, e: CompileError) -> nat
    decreases errs.len(),
{
    if errs.len() == 0 {
        0
    } else {
        count_error(errs.drop_last(), e) + if errs.last() == e { 1nat } else { 0nat }
    }
}

/// A name given twice or more, `gas` among them, is reported as repeated exactly once;
/// a name given once is not reported.
pub proof fn lemma_repeated_reported_once(params: Seq<CallParam>, n: u64, span: Span)
    ensures
        count_error(repeated_errors(params, span), CompileError::ContractCallParamRepeated { name: n, span })
            == if count_named(params, n) > 1 { 1nat } else { 0nat },
    decreases params.len(),
{
    if params.len() > 0 {
        let dl = params.drop_last();
        lemma_repeated_reported_once(dl, n, span);
        let e = CompileError::ContractCallParamRepeated { name: n, span };
        let prev = repeated_errors(dl, span);
        if count_named(dl, params.last().name) == 1 {
            let x = CompileError::ContractCallParamRepeated { name: params.last().name, span };
            assert((prev + seq![x]).drop_last() =~= prev);
        } else {
            assert(prev + Seq::<CompileError>::empty() =~= prev);
        }
    }
}

/// An unknown parameter name is reported once, at that parameter.
pub proof fn lemma_unknown_param_reported(ns: Namespace, p: CallParam)
    requires
        !is_recognized(p.name),
    ensures
        params_errors(ns, seq![p]) == seq![CompileError::UnrecognizedContractParam { name: p.name, span: p.span }],
{
    assert(seq![p].drop_last() =~= Seq::<CallParam>::empty());
    assert(seq![p].last() == p);
    assert(params_errors(ns, Seq::<CallParam>::empty()) == Seq::<CompileError>::empty());
    assert(params_errors(ns, seq![p]) =~= seq![CompileError::UnrecognizedContractParam { name: p.name, span: p.span }]);
}

/// An associated function (no `self` first) may be called through its type, but not with
/// method syntax.
pub proof fn lemma_associated_function_shape(d: FunctionDecl, prefixes: Vec<u64>, is_absolute: bool, receiver_type: Ty, name: u64)
    requires
        !d.is_contract_call,
        !takes_self(d),
    ensures
        !shape_fault(d, MethodName::FromType { prefixes, is_absolute, receiver_type, method_name: name }),
        shape_fault(d, MethodName::FromModule { method_name: name }),
{
}

} // verus!
