use method_resolution::application::{type_check_method_application, CompileResult, FunctionApplication};
use method_resolution::arguments::CallParam;
use method_resolution::decl::{
    DeclarationEngine, ExprKind, Expression, FunctionDecl, MethodEntry, Namespace, Param,
    StorageField, VarDecl, ASSET_ID_PARAM, COINS_PARAM, GAS_PARAM,
};
use method_resolution::errors::CompileError;
use method_resolution::resolve::{CallPath, MethodName, TypeBinding};
use method_resolution::types::{Purity, Span, Ty};

const POINT: u64 = 100;
const SELF_NAME: u64 = 20;
const V_NAME: u64 = 21;
const X: u64 = 30;
const Y: u64 = 31;
const K: u64 = 32;
const GET: u64 = 40;
const SET: u64 = 41;
const ID: u64 = 42;
const NEW: u64 = 43;
const DEPOSIT: u64 = 44;
const T_PARAM: u64 = 50;
const FOO: u64 = 60;

fn sp(unit: u64, start: u64) -> Span {
    Span { unit, start, end: start + 1 }
}

fn self_param(is_mutable: bool) -> Param {
    Param { name: SELF_NAME, ty: Ty::Custom(POINT), is_self: true, is_mutable }
}

fn v_param(ty: Ty) -> Param {
    Param { name: V_NAME, ty, is_self: false, is_mutable: false }
}

fn decl(name: u64, parameters: Vec<Param>, return_type: Ty) -> FunctionDecl {
    FunctionDecl {
        name,
        type_params: vec![],
        parameters,
        return_type,
        purity: Purity::Pure,
        is_public: true,
        is_contract_call: false,
        is_payable: false,
        selector: None,
        span: sp(1, 0),
        parent: None,
    }
}

fn entry(receiver: Ty, name: u64, decl: usize) -> MethodEntry {
    MethodEntry { receiver, module: vec![], name, decl }
}

/// Each method is reachable from the root module (method syntax) and from the module of
/// its receiver's type (`Type::method`), when that type is a named one.
fn namespace(methods: Vec<MethodEntry>) -> Namespace {
    let mut all = methods.clone();
    for m in methods {
        if let Ty::Custom(n) = m.receiver {
            all.push(MethodEntry { receiver: m.receiver, module: vec![n], name: m.name, decl: m.decl });
        }
    }
    Namespace {
        modules: vec![vec![], vec![POINT]],
        methods: all,
        variables: vec![
            VarDecl { name: X, ty: Ty::Custom(POINT), is_constant: false, is_mutable: false },
            VarDecl { name: Y, ty: Ty::Custom(POINT), is_constant: false, is_mutable: true },
            VarDecl { name: K, ty: Ty::Custom(POINT), is_constant: true, is_mutable: false },
        ],
        has_storage: false,
        storage_fields: vec![],
    }
}

fn expr(kind: ExprKind, start: u64) -> Expression {
    Expression { kind, span: sp(1, start) }
}

fn method_call(name: u64) -> TypeBinding {
    TypeBinding { inner: MethodName::FromModule { method_name: name }, type_arguments: vec![], span: sp(1, 90) }
}

fn type_call(name: u64) -> TypeBinding {
    TypeBinding {
        inner: MethodName::FromType { prefixes: vec![], is_absolute: false, receiver_type: Ty::Custom(POINT), method_name: name },
        type_arguments: vec![],
        span: sp(1, 90),
    }
}

fn engine_with(decls: Vec<FunctionDecl>) -> DeclarationEngine {
    DeclarationEngine { decls }
}

fn run(
    ns: &Namespace,
    engine: &mut DeclarationEngine,
    binding: &TypeBinding,
    params: Vec<CallParam>,
    args: Vec<Expression>,
    span: Span,
) -> CompileResult<FunctionApplication> {
    type_check_method_application(ns, engine, Purity::Pure, binding, &params, &args, span)
}

fn getter_setup() -> (Namespace, DeclarationEngine) {
    let get = decl(GET, vec![self_param(false), v_param(Ty::UnsignedInteger(64))], Ty::Boolean);
    (namespace(vec![entry(Ty::Custom(POINT), GET, 0)]), engine_with(vec![get]))
}

#[test]
fn well_typed_call_returns_declared_type() {
    let (ns, mut engine) = getter_setup();
    let args = vec![expr(ExprKind::Variable(X), 1), expr(ExprKind::Literal(5), 2)];
    let r = run(&ns, &mut engine, &method_call(GET), vec![], args, sp(1, 7));
    assert!(r.errors.is_empty());
    let app = r.value.unwrap();
    assert_eq!(app.return_type, Ty::Boolean);
    assert_eq!(app.decl_id, 1);
    assert_eq!(engine.decls.len(), 2);
    assert_eq!(engine.decls[1].parent, Some(0));
    assert_eq!(app.arguments.len(), 2);
    assert_eq!(app.arguments[0].name, SELF_NAME);
    assert_eq!(app.arguments[1].name, V_NAME);
    assert_eq!(app.arguments[1].value.ty, Ty::Numeric);
    assert!(app.selector.is_none());
    assert_eq!(app.self_state_idx, None);
    assert_eq!(app.span, sp(1, 7));
}

#[test]
fn private_method_from_other_unit_fails() {
    let (ns, mut engine) = getter_setup();
    engine.decls[0].is_public = false;
    let args = vec![expr(ExprKind::Variable(X), 1), expr(ExprKind::Literal(5), 2)];
    let r = run(&ns, &mut engine, &method_call(GET), vec![], args.clone(), sp(2, 7));
    assert!(r.value.is_none());
    assert_eq!(r.errors, vec![CompileError::PrivateMethodCalled { name: GET, span: sp(2, 7) }]);
    // the same call from the owning unit goes through
    let r = run(&ns, &mut engine, &method_call(GET), vec![], args, sp(1, 7));
    assert!(r.value.is_some());
}

#[test]
fn private_method_fails_even_with_bad_arguments() {
    let (ns, mut engine) = getter_setup();
    engine.decls[0].is_public = false;
    let args = vec![expr(ExprKind::Variable(X), 1)];
    let r = run(&ns, &mut engine, &method_call(GET), vec![], args, sp(2, 7));
    assert!(r.value.is_none());
    assert_eq!(r.errors.last(), Some(&CompileError::PrivateMethodCalled { name: GET, span: sp(2, 7) }));
}

#[test]
fn argument_count_mismatch_fails() {
    let (ns, mut engine) = getter_setup();
    let args = vec![expr(ExprKind::Variable(X), 1)];
    let r = run(&ns, &mut engine, &method_call(GET), vec![], args, sp(1, 7));
    assert!(r.value.is_none());
    assert_eq!(
        r.errors,
        vec![CompileError::ArgumentCountMismatch { method_syntax: true, expected: 2, received: 1, span: sp(1, 7) }]
    );
    let args = vec![
        expr(ExprKind::Variable(X), 1),
        expr(ExprKind::Literal(5), 2),
        expr(ExprKind::Literal(6), 3),
    ];
    let r = run(&ns, &mut engine, &type_call(GET), vec![], args, sp(1, 7));
    assert_eq!(
        r.errors,
        vec![CompileError::ArgumentCountMismatch { method_syntax: false, expected: 2, received: 3, span: sp(1, 7) }]
    );
}

#[test]
fn argument_type_mismatch_is_reported_and_call_still_built() {
    let (ns, mut engine) = getter_setup();
    let args = vec![expr(ExprKind::Variable(X), 1), expr(ExprKind::Typed(Ty::Boolean), 2)];
    let r = run(&ns, &mut engine, &method_call(GET), vec![], args, sp(1, 7));
    assert_eq!(
        r.errors,
        vec![CompileError::ArgumentTypeMismatch { provided: Ty::Boolean, declared: Ty::UnsignedInteger(64), span: sp(1, 2) }]
    );
    assert!(r.value.is_some());
}

#[test]
fn unknown_variable_degrades_to_placeholder() {
    let (ns, mut engine) = getter_setup();
    let args = vec![expr(ExprKind::Variable(X), 1), expr(ExprKind::Variable(999), 2)];
    let r = run(&ns, &mut engine, &method_call(GET), vec![], args, sp(1, 7));
    assert_eq!(r.errors, vec![CompileError::UnknownVariable { name: 999, span: sp(1, 2) }]);
    let app = r.value.unwrap();
    assert_eq!(app.arguments[1].value.kind, ExprKind::Error);
    assert_eq!(app.arguments[1].value.ty, Ty::ErrorRecovery);
}

fn contract_setup(payable: bool) -> (Namespace, DeclarationEngine) {
    let caller = Ty::ContractCaller { abi: 7, address_known: true, address: 99 };
    let mut d = decl(DEPOSIT, vec![v_param(Ty::UnsignedInteger(64))], Ty::Unit);
    d.is_contract_call = true;
    d.is_payable = payable;
    d.selector = Some([1, 2, 3, 4]);
    (namespace(vec![entry(caller, DEPOSIT, 0)]), engine_with(vec![d]))
}

fn contract_args() -> Vec<Expression> {
    let caller = Ty::ContractCaller { abi: 7, address_known: true, address: 99 };
    vec![expr(ExprKind::Typed(caller), 1), expr(ExprKind::Literal(3), 2)]
}

fn param(name: u64, kind: ExprKind, start: u64) -> CallParam {
    CallParam { name, value: expr(kind, start + 1), span: sp(1, start) }
}

#[test]
fn coins_to_non_payable_method_fails() {
    let (ns, mut engine) = contract_setup(false);
    let params = vec![param(COINS_PARAM, ExprKind::Literal(10), 10)];
    let r = run(&ns, &mut engine, &method_call(DEPOSIT), params, contract_args(), sp(1, 7));
    assert!(r.value.is_none());
    assert_eq!(r.errors, vec![CompileError::CoinsPassedToNonPayableMethod { fn_name: DEPOSIT, span: sp(1, 7) }]);
}

#[test]
fn omitted_coins_to_non_payable_method_succeeds() {
    let (ns, mut engine) = contract_setup(false);
    let r = run(&ns, &mut engine, &method_call(DEPOSIT), vec![], contract_args(), sp(1, 7));
    assert!(r.errors.is_empty());
    let app = r.value.unwrap();
    let sel = app.selector.unwrap();
    assert_eq!(sel.func_selector, [1, 2, 3, 4]);
    assert_eq!(sel.contract_address, 99);
    assert_eq!(sel.address_type, Ty::ContractCaller { abi: 7, address_known: true, address: 99 });
    assert_eq!(app.arguments.len(), 1);
    assert_eq!(app.arguments[0].value.kind, ExprKind::Literal(3));
    assert!(app.contract_call_params.coins.is_none());
}

#[test]
fn zero_coins_and_payable_methods_accept_coins() {
    let (ns, mut engine) = contract_setup(false);
    let params = vec![param(COINS_PARAM, ExprKind::Literal(0), 10)];
    let r = run(&ns, &mut engine, &method_call(DEPOSIT), params, contract_args(), sp(1, 7));
    assert!(r.value.is_some());
    let (ns, mut engine) = contract_setup(true);
    let params = vec![param(COINS_PARAM, ExprKind::Literal(10), 10), param(GAS_PARAM, ExprKind::Literal(500), 20)];
    let r = run(&ns, &mut engine, &method_call(DEPOSIT), params, contract_args(), sp(1, 7));
    assert!(r.errors.is_empty());
    let app = r.value.unwrap();
    assert_eq!(app.contract_call_params.coins.unwrap().kind, ExprKind::Literal(10));
    assert_eq!(app.contract_call_params.gas.unwrap().kind, ExprKind::Literal(500));
}

#[test]
fn repeated_gas_reported_once() {
    let (ns, mut engine) = contract_setup(false);
    let params = vec![param(GAS_PARAM, ExprKind::Literal(1), 10), param(GAS_PARAM, ExprKind::Literal(2), 20)];
    let r = run(&ns, &mut engine, &method_call(DEPOSIT), params, contract_args(), sp(1, 7));
    assert_eq!(r.errors, vec![CompileError::ContractCallParamRepeated { name: GAS_PARAM, span: sp(1, 7) }]);
    // the last one given counts
    assert_eq!(r.value.unwrap().contract_call_params.gas.unwrap().kind, ExprKind::Literal(2));
}

#[test]
fn unknown_contract_param_reported_at_its_location() {
    let (ns, mut engine) = contract_setup(false);
    let params = vec![param(FOO, ExprKind::Literal(1), 10)];
    let r = run(&ns, &mut engine, &method_call(DEPOSIT), params, contract_args(), sp(1, 7));
    assert_eq!(r.errors, vec![CompileError::UnrecognizedContractParam { name: FOO, span: sp(1, 10) }]);
}

#[test]
fn asset_id_must_be_b256() {
    let (ns, mut engine) = contract_setup(false);
    let params = vec![param(ASSET_ID_PARAM, ExprKind::Literal(1), 10)];
    let r = run(&ns, &mut engine, &method_call(DEPOSIT), params, contract_args(), sp(1, 7));
    assert_eq!(
        r.errors,
        vec![CompileError::ArgumentTypeMismatch { provided: Ty::Numeric, declared: Ty::B256, span: sp(1, 11) }]
    );
}

#[test]
fn unknown_contract_address_fails() {
    let unknown = Ty::ContractCaller { abi: 7, address_known: false, address: 0 };
    let (mut ns, mut engine) = contract_setup(false);
    ns.methods[0].receiver = unknown;
    let args = vec![expr(ExprKind::Typed(unknown), 1), expr(ExprKind::Literal(3), 2)];
    let r = run(&ns, &mut engine, &method_call(DEPOSIT), vec![], args, sp(1, 7));
    assert!(r.value.is_none());
    assert_eq!(r.errors, vec![CompileError::ContractAddressMustBeKnown { span: sp(1, 7) }]);
}

#[test]
fn contract_call_on_non_caller_is_internal_error() {
    let (mut ns, mut engine) = contract_setup(false);
    ns.methods[0].receiver = Ty::Unknown;
    let args = vec![expr(ExprKind::Typed(Ty::Boolean), 1), expr(ExprKind::Literal(3), 2)];
    let r = run(&ns, &mut engine, &method_call(DEPOSIT), vec![], args, sp(1, 7));
    assert!(r.value.is_none());
    assert_eq!(
        r.errors,
        vec![CompileError::NotAContractCaller { span: sp(1, 7) }, CompileError::ContractAddressMustBeKnown { span: sp(1, 7) }]
    );
}

#[test]
fn missing_selector_falls_back_to_zero() {
    let (ns, mut engine) = contract_setup(false);
    engine.decls[0].selector = None;
    let r = run(&ns, &mut engine, &method_call(DEPOSIT), vec![], contract_args(), sp(1, 7));
    assert_eq!(r.errors, vec![CompileError::SelectorUnavailable { span: sp(1, 7) }]);
    assert_eq!(r.value.unwrap().selector.unwrap().func_selector, [0, 0, 0, 0]);
}

fn setter_setup() -> (Namespace, DeclarationEngine) {
    let set = decl(SET, vec![self_param(true), v_param(Ty::UnsignedInteger(64))], Ty::Unit);
    (namespace(vec![entry(Ty::Custom(POINT), SET, 0)]), engine_with(vec![set]))
}

#[test]
fn mutable_self_through_immutable_binding_fails() {
    let (ns, mut engine) = setter_setup();
    let args = vec![expr(ExprKind::Variable(X), 1), expr(ExprKind::Literal(5), 2)];
    let r = run(&ns, &mut engine, &method_call(SET), vec![], args, sp(1, 7));
    assert!(r.value.is_none());
    assert_eq!(r.errors, vec![CompileError::MethodRequiresMutableSelf { method_name: SET, variable: X, span: sp(1, 7) }]);
    let args = vec![expr(ExprKind::Variable(K), 1), expr(ExprKind::Literal(5), 2)];
    let r = run(&ns, &mut engine, &method_call(SET), vec![], args, sp(1, 7));
    assert_eq!(r.errors, vec![CompileError::MethodRequiresMutableSelf { method_name: SET, variable: K, span: sp(1, 7) }]);
}

#[test]
fn mutable_self_through_mutable_binding_succeeds() {
    let (ns, mut engine) = setter_setup();
    let args = vec![expr(ExprKind::Variable(Y), 1), expr(ExprKind::Literal(5), 2)];
    let r = run(&ns, &mut engine, &method_call(SET), vec![], args, sp(1, 7));
    assert!(r.errors.is_empty());
    let app = r.value.unwrap();
    assert_eq!(app.arguments[0].name, SELF_NAME);
    assert_eq!(app.arguments[0].value.kind, ExprKind::Variable(Y));
    assert_eq!(app.arguments[0].value.ty, Ty::Custom(POINT));
}

#[test]
fn generic_method_instantiated_per_argument_type() {
    let mut id = decl(ID, vec![self_param(false), v_param(Ty::Generic(T_PARAM))], Ty::Generic(T_PARAM));
    id.type_params = vec![T_PARAM];
    let ns = namespace(vec![entry(Ty::Custom(POINT), ID, 0)]);
    let mut engine = engine_with(vec![id]);
    let a = vec![expr(ExprKind::Variable(X), 1), expr(ExprKind::Typed(Ty::UnsignedInteger(64)), 2)];
    let b = vec![expr(ExprKind::Variable(X), 1), expr(ExprKind::Typed(Ty::Boolean), 2)];
    let ra = run(&ns, &mut engine, &method_call(ID), vec![], a, sp(1, 7)).value.unwrap();
    let rb = run(&ns, &mut engine, &method_call(ID), vec![], b, sp(1, 7)).value.unwrap();
    assert_ne!(ra.decl_id, rb.decl_id);
    assert_eq!(engine.decls[ra.decl_id].parent, Some(0));
    assert_eq!(engine.decls[rb.decl_id].parent, Some(0));
    assert_eq!(ra.return_type, Ty::UnsignedInteger(64));
    assert_eq!(rb.return_type, Ty::Boolean);
    assert_eq!(engine.decls[ra.decl_id].parameters[1].ty, Ty::UnsignedInteger(64));
    assert!(engine.decls[ra.decl_id].type_params.is_empty());
}

#[test]
fn explicit_type_arguments_are_used_and_counted() {
    let mut id = decl(ID, vec![self_param(false), v_param(Ty::Generic(T_PARAM))], Ty::Generic(T_PARAM));
    id.type_params = vec![T_PARAM];
    let ns = namespace(vec![entry(Ty::Custom(POINT), ID, 0)]);
    let mut engine = engine_with(vec![id]);
    let args = vec![expr(ExprKind::Variable(X), 1), expr(ExprKind::Literal(4), 2)];
    let mut binding = method_call(ID);
    binding.type_arguments = vec![Ty::UnsignedInteger(8)];
    let r = run(&ns, &mut engine, &binding, vec![], args.clone(), sp(1, 7));
    assert_eq!(r.value.unwrap().return_type, Ty::UnsignedInteger(8));
    binding.type_arguments = vec![Ty::Boolean, Ty::B256];
    let r = run(&ns, &mut engine, &binding, vec![], args, sp(1, 7));
    assert!(r.value.is_none());
    assert_eq!(r.errors, vec![CompileError::TypeArgumentArityMismatch { expected: 1, given: 2, span: sp(1, 90) }]);
    assert_eq!(engine.decls.len(), 2);
}

#[test]
fn associated_function_through_type_succeeds_and_as_method_fails() {
    let new = decl(NEW, vec![v_param(Ty::Custom(POINT))], Ty::Custom(POINT));
    let ns = namespace(vec![entry(Ty::Custom(POINT), NEW, 0)]);
    let mut engine = engine_with(vec![new]);
    let args = vec![expr(ExprKind::Variable(X), 1)];
    let r = run(&ns, &mut engine, &type_call(NEW), vec![], args.clone(), sp(1, 7));
    assert!(r.errors.is_empty());
    let app = r.value.unwrap();
    assert_eq!(app.call_path.prefixes, vec![POINT]);
    assert_eq!(app.call_path.suffix, NEW);
    let r = run(&ns, &mut engine, &method_call(NEW), vec![], args, sp(1, 7));
    assert!(r.value.is_none());
    assert_eq!(r.errors, vec![CompileError::AssociatedFunctionCalledAsMethod { fn_name: NEW, span: sp(1, 7) }]);
}

#[test]
fn type_path_looks_up_in_the_module_of_the_type() {
    let (mut ns, mut engine) = getter_setup();
    ns.modules = vec![vec![]];
    let args = vec![expr(ExprKind::Variable(X), 1), expr(ExprKind::Literal(5), 2)];
    let r = run(&ns, &mut engine, &type_call(GET), vec![], args, sp(1, 7));
    assert!(r.value.is_none());
    assert_eq!(r.errors, vec![CompileError::ModuleNotFound { span: sp(1, 90) }]);
    assert_eq!(engine.decls.len(), 1);
}

#[test]
fn lookup_failures() {
    let (ns, mut engine) = getter_setup();
    let args = vec![expr(ExprKind::Variable(X), 1), expr(ExprKind::Literal(5), 2)];
    let r = run(&ns, &mut engine, &method_call(SET), vec![], args.clone(), sp(1, 7));
    assert_eq!(r.errors, vec![CompileError::MethodNotFound { name: SET, span: sp(1, 90) }]);
    let mut ambiguous = ns.clone();
    ambiguous.methods.push(entry(Ty::Unknown, GET, 0));
    let r = run(&ambiguous, &mut engine, &method_call(GET), vec![], args.clone(), sp(1, 7));
    assert_eq!(r.errors, vec![CompileError::AmbiguousMethod { name: GET, span: sp(1, 90) }]);
    let mut binding = type_call(GET);
    binding.inner = MethodName::FromType { prefixes: vec![], is_absolute: false, receiver_type: Ty::Custom(8), method_name: GET };
    let r = run(&ns, &mut engine, &binding, vec![], args.clone(), sp(1, 7));
    assert_eq!(r.errors, vec![CompileError::ModuleNotFound { span: sp(1, 90) }]);
    binding.inner = MethodName::FromType { prefixes: vec![8], is_absolute: false, receiver_type: Ty::Boolean, method_name: GET };
    let r = run(&ns, &mut engine, &binding, vec![], args.clone(), sp(1, 7));
    assert_eq!(r.errors, vec![CompileError::ModuleNotFound { span: sp(1, 90) }]);
    let mut dangling = ns.clone();
    dangling.methods[0].decl = 5;
    let r = run(&dangling, &mut engine, &method_call(GET), vec![], args, sp(1, 7));
    assert_eq!(r.errors, vec![CompileError::DeclarationNotFound { id: 5, span: sp(1, 90) }]);
    assert_eq!(engine.decls.len(), 1);
}

#[test]
fn trait_qualified_call_uses_first_argument_type() {
    let (mut ns, mut engine) = getter_setup();
    ns.modules.push(vec![3]);
    ns.methods[0].module = vec![3];
    let binding = TypeBinding {
        inner: MethodName::FromTrait { call_path: CallPath { prefixes: vec![3], suffix: GET, is_absolute: true } },
        type_arguments: vec![],
        span: sp(1, 90),
    };
    let args = vec![expr(ExprKind::Variable(X), 1), expr(ExprKind::Literal(5), 2)];
    let r = run(&ns, &mut engine, &binding, vec![], args, sp(1, 7));
    let app = r.value.unwrap();
    assert_eq!(app.call_path.prefixes, vec![3]);
    assert!(app.call_path.is_absolute);
}

#[test]
fn purity_and_stray_call_params_are_reported_without_aborting() {
    let (ns, mut engine) = getter_setup();
    engine.decls[0].purity = Purity::Reads;
    let args = vec![expr(ExprKind::Variable(X), 1), expr(ExprKind::Literal(5), 2)];
    let params = vec![param(GAS_PARAM, ExprKind::Literal(1), 10), param(COINS_PARAM, ExprKind::Literal(1), 20)];
    let r = run(&ns, &mut engine, &method_call(GET), params, args.clone(), sp(1, 7));
    assert_eq!(
        r.errors,
        vec![
            CompileError::StorageAccessMismatch { caller: Purity::Pure, callee: Purity::Reads, span: sp(1, 90) },
            CompileError::CallParamForNonContractCallMethod { span: sp(1, 10) },
            CompileError::CallParamForNonContractCallMethod { span: sp(1, 10) },
        ]
    );
    assert!(r.value.is_some());
    let r = type_check_method_application(&ns, &mut engine, Purity::ReadsWrites, &method_call(GET), &vec![], &args, sp(1, 7));
    assert!(r.errors.is_empty());
}

#[test]
fn storage_receiver_records_its_index() {
    let (mut ns, mut engine) = getter_setup();
    ns.has_storage = true;
    ns.storage_fields = vec![
        StorageField { name: 70, ty: Ty::Boolean },
        StorageField { name: 71, ty: Ty::Custom(POINT) },
    ];
    let args = vec![expr(ExprKind::StorageAccess(71), 1), expr(ExprKind::Literal(5), 2)];
    let r = run(&ns, &mut engine, &method_call(GET), vec![], args, sp(1, 7));
    assert_eq!(r.value.unwrap().self_state_idx, Some(1));
    let args = vec![expr(ExprKind::Variable(X), 1), expr(ExprKind::Literal(5), 2)];
    let r = run(&ns, &mut engine, &method_call(GET), vec![], args, sp(1, 7));
    assert_eq!(r.value.unwrap().self_state_idx, None);
    let args = vec![expr(ExprKind::StorageAccess(72), 1), expr(ExprKind::Literal(5), 2)];
    let r = run(&ns, &mut engine, &method_call(GET), vec![], args, sp(1, 7));
    assert!(r.value.is_none());
    assert_eq!(r.errors.last(), Some(&CompileError::StorageFieldDoesNotExist { name: 72, span: sp(1, 7) }));
}
