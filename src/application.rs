//! Checking a method application from end to end: resolution, the semantic checks,
//! the contract-call selector, unification and the assembled call.
use vstd::prelude::*;
use crate::arguments::{
    args_errors, check_contract_call_params, checked_expr, last_named, params_errors,
    possibly_nonzero, repeated_errors, type_check_arguments, CallParam, ContractCallArgs,
};
use crate::decl::{
    field_index, symbol_of, DeclarationEngine, ExprKind, Expression, FunctionDecl, Namespace,
    Param, TyExpression, ASSET_ID_PARAM, COINS_PARAM, GAS_PARAM,
};
use crate::errors::CompileError;
use crate::resolve::{
    entry_matches, is_instance_of, module_found, query_name, resolve_method_name, sole_match,
    type_values, CallPath, MethodName, TypeBinding,
};
use crate::types::{purity_permits, unifies, unify, Purity, Span, Ty};

verus! {

/// The selector and address of a cross-contract call.
#[derive(Clone, Copy, Debug)]
pub struct ContractCallSelector {
    pub func_selector: [u8; 4],
    pub contract_address: u64,
    /// The type of the contract caller the address came from.
    pub address_type: Ty,
}

/// An argument bound to the name of its parameter.
#[derive(PartialEq, Eq, Structural, Clone, Copy, Debug)]
pub struct NamedArg {
    pub name: u64,
    pub value: TyExpression,
}

/// A fully resolved and typed call.
#[derive(Clone, Debug)]
pub struct FunctionApplication {
    pub call_path: CallPath,
    pub contract_call_params: ContractCallArgs,
    pub arguments: Vec<NamedArg>,
    pub decl_id: usize,
    pub self_state_idx: Option<usize>,
    pub selector: Option<ContractCallSelector>,
    pub return_type: Ty,
    pub span: Span,
}

/// A result together with the errors found on the way; `value` is `None` when a fatal
/// error stopped the check.
#[derive(Clone, Debug)]
pub struct CompileResult<T> {
    pub value: Option<T>,
    pub errors: Vec<CompileError>,
}

/// The arguments as the argument checker types them.
pub open spec fn typed_args(ns: Namespace, args: Seq<Expression>) -> Seq<TyExpression> {
    Seq::new(args.len(), |i: int| checked_expr(ns, args[i]))
}

/// The callee may be called from the unit of `span`.
pub open spec fn visible(d: FunctionDecl, span: Span) -> bool {
    d.is_public || d.span.unit == span.unit
}

/// A possibly nonzero amount of coins is sent to a contract method that is not payable.
pub open spec fn coins_rejected(ns: Namespace, d: FunctionDecl, params: Seq<CallParam>) -> bool {
    &&& d.is_contract_call
    &&& (last_named(ns, params, COINS_PARAM) matches Some(c) && c.kind != ExprKind::Literal(0))
    &&& !d.is_payable
}

/// The call's receiver is a storage field that is not declared.
pub open spec fn storage_fault(ns: Namespace, args: Seq<Expression>) -> bool {
    ns.has_storage && args.len() > 0 && (args[0].kind matches ExprKind::StorageAccess(f) && field_index(ns, f) is None)
}

/// The storage field that the call's receiver is, where storage is declared.
pub open spec fn state_index(ns: Namespace, args: Seq<Expression>) -> Option<usize> {
    if ns.has_storage && args.len() > 0 && args[0].kind is StorageAccess {
        field_index(ns, args[0].kind->StorageAccess_0)
    } else {
        None
    }
}

/// Whether the declaration takes `self` first.
pub open spec fn takes_self(d: FunctionDecl) -> bool {
    d.parameters@.len() > 0 && d.parameters@[0].is_self
}

/// An associated function is called with method syntax.
pub open spec fn shape_fault(d: FunctionDecl, m: MethodName) -> bool {
    !d.is_contract_call && m is FromModule && !takes_self(d)
}

/// A method that takes `self` mutably is called on a variable that is not mutable.
pub open spec fn mutability_fault(ns: Namespace, d: FunctionDecl, t: Seq<TyExpression>) -> bool {
    &&& t.len() > 0 && d.parameters@.len() > 0 && d.parameters@[0].is_mutable
    &&& t[0].kind is Variable
    &&& !(symbol_of(ns, t[0].kind->Variable_0) matches Some(v) && (!v.is_constant && v.is_mutable))
}

/// A contract call whose first argument is not a contract caller with a known address.
pub open spec fn address_fault(d: FunctionDecl, t: Seq<TyExpression>) -> bool {
    d.is_contract_call && !(t.len() > 0 && (t[0].ty matches Ty::ContractCaller { address_known: true, .. }))
}

/// The arguments that are matched with parameters: without the contract caller of a
/// contract call.
pub open spec fn call_args(d: FunctionDecl, t: Seq<TyExpression>) -> Seq<TyExpression> {
    if d.is_contract_call { t.drop_first() } else { t }
}

pub open spec fn arity_fault(d: FunctionDecl, t: Seq<TyExpression>) -> bool {
    d.parameters@.len() != call_args(d, t).len()
}

/// All checks after resolution pass for declaration `d`.
pub open spec fn call_accepted(ns: Namespace, d: FunctionDecl, binding: TypeBinding, params: Seq<CallParam>, args: Seq<Expression>, span: Span) -> bool {
    let t = typed_args(ns, args);
    &&& visible(d, span)
    &&& !coins_rejected(ns, d, params)
    &&& !storage_fault(ns, args)
    &&& !shape_fault(d, binding.inner)
    &&& !mutability_fault(ns, d, t)
    &&& !address_fault(d, t)
    &&& !arity_fault(d, t)
}

/// The errors that unifying arguments with parameters reports, in argument order.
pub open spec fn mismatch_errors(args: Seq<TyExpression>, params: Seq<Param>) -> Seq<CompileError>
    decreases args.len(),
{
    if args.len() == 0 || params.len() < args.len() {
        seq![]
    } else {
        let i = args.len() - 1;
        mismatch_errors(args.drop_last(), params) + if unifies(args[i].ty, params[i].ty) {
            seq![]
        } else {
            seq![CompileError::ArgumentTypeMismatch { provided: args[i].ty, declared: params[i].ty, span: args[i].span }]
        }
    }
}

/// Unifies each argument with the declared type of its parameter, reporting each
/// mismatch and going on.
pub fn unify_arguments(args: &Vec<TyExpression>, params: &Vec<Param>, errors: &mut Vec<CompileError>)
    requires
        args@.len() == params@.len(),
    ensures
        final(errors)@ == old(errors)@ + mismatch_errors(args@, params@),
{
    let mut i: usize = 0;
    while i < args.len()
        invariant
            args@.len() == params@.len(),
            i <= args@.len(),
            errors@ == old(errors)@ + mismatch_errors(args@.take(i as int), params@),
        decreases args@.len() - i,
    {
        assert(args@.take(i + 1).drop_last() =~= args@.take(i as int));
        if !unify(args[i].ty, params[i].ty) {
            errors.push(CompileError::ArgumentTypeMismatch { provided: args[i].ty, declared: params[i].ty, span: args[i].span });
        }
        assert(errors@ =~= old(errors)@ + mismatch_errors(args@.take(i + 1), params@));
        i += 1;
    }
    assert(args@.take(args@.len() as int) =~= args@);
}

/// The purity error of a call from a context of purity `caller`, if any.
pub open spec fn purity_errors(caller: Purity, d: FunctionDecl, binding: TypeBinding) -> Seq<CompileError> {
    if purity_permits(caller, d.purity) {
        seq![]
    } else {
        seq![CompileError::StorageAccessMismatch { caller, callee: d.purity, span: binding.span }]
    }
}

/// Contract-call parameters given to a call that is not one: one error for each, all at
/// the first one's place.
pub open spec fn stray_errors(params: Seq<CallParam>) -> Seq<CompileError> {
    Seq::new(params.len(), |i: int| CompileError::CallParamForNonContractCallMethod { span: params[0].span })
}

/// The errors found before arguments are unified with parameters, in the order found.
pub open spec fn pre_unify_errors(ns: Namespace, caller: Purity, d: FunctionDecl, binding: TypeBinding, params: Seq<CallParam>, args: Seq<Expression>, span: Span) -> Seq<CompileError> {
    args_errors(ns, args) + if !d.is_contract_call {
        purity_errors(caller, d, binding) + stray_errors(params)
    } else {
        repeated_errors(params, span) + params_errors(ns, params) + if d.selector is None {
            seq![CompileError::SelectorUnavailable { span }]
        } else {
            seq![]
        }
    }
}

/// Every error of a call that is accepted, in the order found.
pub open spec fn call_errors(ns: Namespace, caller: Purity, d: FunctionDecl, binding: TypeBinding, params: Seq<CallParam>, args: Seq<Expression>, span: Span) -> Seq<CompileError> {
    pre_unify_errors(ns, caller, d, binding, params, args, span) + mismatch_errors(call_args(d, typed_args(ns, args)), d.parameters@)
}

/// The module prefixes of the path the call is recorded under.
pub open spec fn call_path_prefixes(m: MethodName) -> Seq<u64> {
    match m {
        MethodName::FromType { prefixes, receiver_type, .. } => match receiver_type {
            Ty::Custom(n) => seq![n],
            _ => prefixes@,
        },
        MethodName::FromTrait { call_path } => call_path.prefixes@,
        MethodName::FromModule { .. } => seq![],
    }
}

pub open spec fn call_path_absolute(m: MethodName) -> bool {
    match m {
        MethodName::FromType { is_absolute, .. } => is_absolute,
        MethodName::FromTrait { call_path } => call_path.is_absolute,
        MethodName::FromModule { .. } => false,
    }
}

/// The path a call is recorded under: a named type stands for its own module.
pub fn call_path_of(m: &MethodName) -> (r: CallPath)
    ensures
        r.prefixes@ == call_path_prefixes(*m),
        r.suffix == crate::resolve::query_name(*m),
        r.is_absolute == call_path_absolute(*m),
{
    match m {
        MethodName::FromType { prefixes, is_absolute, receiver_type, method_name } => {
            let prefixes = match receiver_type {
                Ty::Custom(n) => vec![*n],
                _ => prefixes.clone(),
            };
            CallPath { prefixes, suffix: *method_name, is_absolute: *is_absolute }
        },
        MethodName::FromTrait { call_path } => CallPath {
            prefixes: call_path.prefixes.clone(),
            suffix: call_path.suffix,
            is_absolute: call_path.is_absolute,
        },
        MethodName::FromModule { method_name } => CallPath { prefixes: Vec::new(), suffix: *method_name, is_absolute: false },
    }
}

/// Checks a method application: type-checks the arguments, resolves and instantiates the
/// callee, runs the visibility, purity, contract-parameter, storage, call-shape and
/// mutability checks in that order, builds the selector of a contract call, checks the
/// argument count and unifies each argument with its parameter.
#[verifier::rlimit(50)]
pub fn type_check_method_application(
    ns: &Namespace,
    engine: &mut DeclarationEngine,
    caller_purity: Purity,
    binding: &TypeBinding,
    contract_call_params: &Vec<CallParam>,
    arguments: &Vec<Expression>,
    span: Span,
) -> (r: CompileResult<FunctionApplication>)
    ensures
        final(engine)@ == old(engine)@ ==> r.value is None && r.errors@.len() > 0,
        !module_found(*ns, binding.inner) ==> (r.value is None && final(engine)@ == old(engine)@
            && r.errors@.last() == CompileError::ModuleNotFound { span: binding.span }),
        module_found(*ns, binding.inner) && (forall|i: int| 0 <= i < ns.methods@.len()
            ==> !#[trigger] entry_matches(*ns, binding.inner, typed_args(*ns, arguments@), i))
            ==> (r.value is None && final(engine)@ == old(engine)@
            && r.errors@.last() == CompileError::MethodNotFound { name: query_name(binding.inner), span: binding.span }),
        module_found(*ns, binding.inner) && (exists|i: int, j: int| 0 <= i < j < ns.methods@.len()
            && #[trigger] entry_matches(*ns, binding.inner, typed_args(*ns, arguments@), i)
            && #[trigger] entry_matches(*ns, binding.inner, typed_args(*ns, arguments@), j))
            ==> (r.value is None && final(engine)@ == old(engine)@
            && r.errors@.last() == CompileError::AmbiguousMethod { name: query_name(binding.inner), span: binding.span }),
        forall|i: int| module_found(*ns, binding.inner) && #[trigger] sole_match(*ns, binding.inner, typed_args(*ns, arguments@), i) ==> {
            let d = ns.methods@[i].decl;
            let orig = old(engine)@[d as int];
            let ta = binding.type_arguments@;
            &&& d >= old(engine)@.len() ==> (r.value is None && final(engine)@ == old(engine)@
                && r.errors@.last() == CompileError::DeclarationNotFound { id: d, span: binding.span })
            &&& (d < old(engine)@.len() && ta.len() > 0 && ta.len() != orig.type_params@.len()) ==> (r.value is None
                && final(engine)@ == old(engine)@ && r.errors@.last() == CompileError::TypeArgumentArityMismatch {
                    expected: orig.type_params@.len() as usize, given: ta.len() as usize, span: binding.span })
            &&& (d < old(engine)@.len() && !(ta.len() > 0 && ta.len() != orig.type_params@.len())) ==> {
                &&& final(engine)@.len() == old(engine)@.len() + 1
                &&& final(engine)@.drop_last() == old(engine)@
                &&& is_instance_of(final(engine)@.last(), orig, type_values(orig, ta, typed_args(*ns, arguments@)), d)
            }
        },
        final(engine)@ != old(engine)@ ==> ({
            let d = final(engine)@.last();
            let t = typed_args(*ns, arguments@);
            &&& final(engine)@.len() == old(engine)@.len() + 1
            &&& final(engine)@.drop_last() == old(engine)@
            &&& !visible(d, span) ==> (r.value is None
                && r.errors@ == args_errors(*ns, arguments@).push(CompileError::PrivateMethodCalled { name: d.name, span }))
            &&& (visible(d, span) && coins_rejected(*ns, d, contract_call_params@)) ==> (r.value is None
                && r.errors@.last() == CompileError::CoinsPassedToNonPayableMethod { fn_name: d.name, span })
            &&& (visible(d, span) && !coins_rejected(*ns, d, contract_call_params@) && storage_fault(*ns, arguments@))
                ==> (r.value is None && r.errors@.last() == CompileError::StorageFieldDoesNotExist {
                    name: arguments@[0].kind->StorageAccess_0, span })
            &&& (visible(d, span) && !coins_rejected(*ns, d, contract_call_params@) && !storage_fault(*ns, arguments@)
                && shape_fault(d, binding.inner)) ==> (r.value is None
                && r.errors@.last() == CompileError::AssociatedFunctionCalledAsMethod { fn_name: d.name, span })
            &&& (visible(d, span) && !coins_rejected(*ns, d, contract_call_params@) && !storage_fault(*ns, arguments@)
                && !shape_fault(d, binding.inner) && mutability_fault(*ns, d, t)) ==> (r.value is None
                && r.errors@.last() == CompileError::MethodRequiresMutableSelf {
                    method_name: d.name, variable: t[0].kind->Variable_0, span })
            &&& (visible(d, span) && !coins_rejected(*ns, d, contract_call_params@) && !storage_fault(*ns, arguments@)
                && !shape_fault(d, binding.inner) && !mutability_fault(*ns, d, t) && address_fault(d, t)) ==> (r.value is None
                && r.errors@.last() == CompileError::ContractAddressMustBeKnown { span })
            &&& (visible(d, span) && !coins_rejected(*ns, d, contract_call_params@) && !storage_fault(*ns, arguments@)
                && !shape_fault(d, binding.inner) && !mutability_fault(*ns, d, t) && !address_fault(d, t)
                && arity_fault(d, t)) ==> (r.value is None
                && r.errors@ == pre_unify_errors(*ns, caller_purity, d, *binding, contract_call_params@, arguments@, span).push(
                    CompileError::ArgumentCountMismatch {
                    method_syntax: !d.is_contract_call && binding.inner is FromModule,
                    expected: d.parameters@.len() as usize, received: call_args(d, t).len() as usize, span }))
            &&& r.value is Some <==> call_accepted(*ns, d, *binding, contract_call_params@, arguments@, span)
            &&& r.value matches Some(app) ==> {
                &&& app.decl_id == old(engine)@.len()
                &&& app.return_type == d.return_type
                &&& app.span == span
                &&& app.arguments@.len() == d.parameters@.len()
                &&& forall|i: int| 0 <= i < app.arguments@.len() ==> #[trigger] app.arguments@[i]
                    == (NamedArg { name: d.parameters@[i].name, value: call_args(d, t)[i] })
                &&& app.self_state_idx == state_index(*ns, arguments@)
                &&& r.errors@ == call_errors(*ns, caller_purity, d, *binding, contract_call_params@, arguments@, span)
                &&& app.selector is Some == d.is_contract_call
                &&& app.selector matches Some(sel) ==> (sel.address_type == t[0].ty
                    && sel.contract_address == t[0].ty->ContractCaller_address
                    && (d.selector matches Some(bytes) ==> sel.func_selector == bytes)
                    && (d.selector is None ==> sel.func_selector == [0u8, 0u8, 0u8, 0u8]))
                &&& app.contract_call_params.gas == if d.is_contract_call { last_named(*ns, contract_call_params@, GAS_PARAM) } else { None }
                &&& app.contract_call_params.coins == if d.is_contract_call { last_named(*ns, contract_call_params@, COINS_PARAM) } else { None }
                &&& app.contract_call_params.asset_id == if d.is_contract_call { last_named(*ns, contract_call_params@, ASSET_ID_PARAM) } else { None }
                &&& app.call_path.prefixes@ == call_path_prefixes(binding.inner)
                &&& app.call_path.is_absolute == call_path_absolute(binding.inner)
                &&& app.call_path.suffix == crate::resolve::query_name(binding.inner)
            }
        }),
{
    let mut errors: Vec<CompileError> = Vec::new();
    let mut args_buf = type_check_arguments(ns, arguments, &mut errors);
    let ghost t = typed_args(*ns, arguments@);
    assert(args_buf@ =~= t);
    let id = match resolve_method_name(ns, engine, binding, &args_buf) {
        Ok(id) => id,
        Err(e) => {
            errors.push(e);
            return CompileResult { value: None, errors };
        },
    };
    let method: &FunctionDecl = &engine.decls[id];
    let ghost d = engine@.last();
    assert(*method == d);

    if method.span.unit != span.unit && !method.is_public {
        errors.push(CompileError::PrivateMethodCalled { name: method.name, span });
        return CompileResult { value: None, errors };
    }

    if !method.is_contract_call {
        if !caller_purity.can_call(method.purity) {
            errors.push(CompileError::StorageAccessMismatch { caller: caller_purity, callee: method.purity, span: binding.span });
        }
        let ghost base = errors@;
        let mut k: usize = 0;
        while k < contract_call_params.len()
            invariant
                k <= contract_call_params@.len(),
                errors@ == base + stray_errors(contract_call_params@).take(k as int),
            decreases contract_call_params@.len() - k,
        {
            errors.push(CompileError::CallParamForNonContractCallMethod { span: contract_call_params[0].span });
            assert(errors@ =~= base + stray_errors(contract_call_params@).take(k + 1));
            k += 1;
        }
        assert(stray_errors(contract_call_params@).take(k as int) =~= stray_errors(contract_call_params@));
    }

    let mut cc_params = ContractCallArgs { gas: None, coins: None, asset_id: None };
    if method.is_contract_call {
        cc_params = check_contract_call_params(ns, contract_call_params, span, &mut errors);
        if let Some(c) = &cc_params.coins {
            if possibly_nonzero(c) && !method.is_payable {
                errors.push(CompileError::CoinsPassedToNonPayableMethod { fn_name: method.name, span });
                return CompileResult { value: None, errors };
            }
        }
    }

    let mut self_state_idx: Option<usize> = None;
    if ns.has_storage && arguments.len() > 0 {
        if let ExprKind::StorageAccess(f) = arguments[0].kind {
            match ns.storage_field_index(f) {
                Some(ix) => {
                    self_state_idx = Some(ix);
                },
                None => {
                    errors.push(CompileError::StorageFieldDoesNotExist { name: f, span });
                    return CompileResult { value: None, errors };
                },
            }
        }
    }

    let is_module_shape = match binding.inner {
        MethodName::FromModule { .. } => true,
        _ => false,
    };
    let method_syntax = !method.is_contract_call && is_module_shape;
    if method_syntax {
        let first_is_self = method.parameters.len() > 0 && method.parameters[0].is_self;
        if !first_is_self {
            errors.push(CompileError::AssociatedFunctionCalledAsMethod { fn_name: method.name, span });
            return CompileResult { value: None, errors };
        }
    }

    if args_buf.len() > 0 && method.parameters.len() > 0 && method.parameters[0].is_mutable {
        if let ExprKind::Variable(n) = args_buf[0].kind {
            let mutable = match ns.resolve_symbol(n) {
                Some(v) => !v.is_constant && v.is_mutable,
                None => {
                    errors.push(CompileError::UnknownVariable { name: n, span: args_buf[0].span });
                    return CompileResult { value: None, errors };
                },
            };
            if !mutable {
                errors.push(CompileError::MethodRequiresMutableSelf { method_name: method.name, variable: n, span });
                return CompileResult { value: None, errors };
            }
        }
    }

    let call_path = call_path_of(&binding.inner);

    let mut selector: Option<ContractCallSelector> = None;
    if method.is_contract_call {
        if args_buf.len() == 0 {
            errors.push(CompileError::NotAContractCaller { span });
            errors.push(CompileError::ContractAddressMustBeKnown { span });
            return CompileResult { value: None, errors };
        }
        let caller = args_buf.remove(0);
        let address = match caller.ty {
            Ty::ContractCaller { address_known, address, .. } => if address_known { Some(address) } else { None },
            _ => {
                errors.push(CompileError::NotAContractCaller { span });
                None
            },
        };
        match address {
            Some(a) => {
                let func_selector = match method.selector {
                    Some(s) => s,
                    None => {
                        errors.push(CompileError::SelectorUnavailable { span });
                        [0u8, 0u8, 0u8, 0u8]
                    },
                };
                selector = Some(ContractCallSelector { func_selector, contract_address: a, address_type: caller.ty });
            },
            None => {
                errors.push(CompileError::ContractAddressMustBeKnown { span });
                return CompileResult { value: None, errors };
            },
        }
    }
    assert(args_buf@ =~= call_args(d, t));

    proof {
        let pe = pre_unify_errors(*ns, caller_purity, d, *binding, contract_call_params@, arguments@, span);
        if d.is_contract_call {
            if d.selector is None {
                assert(errors@ =~= args_errors(*ns, arguments@) + repeated_errors(contract_call_params@, span)
                    + params_errors(*ns, contract_call_params@) + seq![CompileError::SelectorUnavailable { span }]);
            } else {
                assert(errors@ =~= args_errors(*ns, arguments@) + repeated_errors(contract_call_params@, span)
                    + params_errors(*ns, contract_call_params@));
            }
        }
        assert(errors@ =~= pe);
    }
    if args_buf.len() != method.parameters.len() {
        errors.push(CompileError::ArgumentCountMismatch {
            method_syntax,
            expected: method.parameters.len(),
            received: args_buf.len(),
            span,
        });
        return CompileResult { value: None, errors };
    }

    unify_arguments(&args_buf, &method.parameters, &mut errors);

    let mut named: Vec<NamedArg> = Vec::new();
    let mut i: usize = 0;
    while i < args_buf.len()
        invariant
            args_buf@.len() == method.parameters@.len(),
            i <= args_buf@.len(),
            named@.len() == i,
            forall|j: int| 0 <= j < i ==> #[trigger] named@[j]
                == (NamedArg { name: method.parameters@[j].name, value: args_buf@[j] }),
        decreases args_buf@.len() - i,
    {
        named.push(NamedArg { name: method.parameters[i].name, value: args_buf[i] });
        i += 1;
    }

    let app = FunctionApplication {
        call_path,
        contract_call_params: cc_params,
        arguments: named,
        decl_id: id,
        self_state_idx,
        selector,
        return_type: method.return_type,
        span,
    };
    CompileResult { value: Some(app), errors }
}

} // verus!
