//! Locating the callable a call refers to, and instantiating it for the call.
use vstd::prelude::*;
use crate::decl::{matches_method, DeclarationEngine, FunctionDecl, Namespace, Param, TyExpression};
use crate::errors::CompileError;
use crate::types::{Span, Ty};

verus! {

/// A path to an item: module prefixes and the item's own name.
#[derive(Clone, Debug)]
pub struct CallPath {
    pub prefixes: Vec<u64>,
    pub suffix: u64,
    pub is_absolute: bool,
}

/// How the callee of a call was written.
#[derive(Clone, Debug)]
pub enum MethodName {
    /// `Type::method` (or `value.method` with a named receiver type): the type, and the
    /// module prefixes written before it.
    FromType { prefixes: Vec<u64>, is_absolute: bool, receiver_type: Ty, method_name: u64 },
    /// A trait-qualified call.
    FromTrait { call_path: CallPath },
    /// `receiver.method(..)`, looked up from the root module.
    FromModule { method_name: u64 },
}

/// A method name with the explicit type arguments written at the call site.
#[derive(Clone, Debug)]
pub struct TypeBinding {
    pub inner: MethodName,
    pub type_arguments: Vec<Ty>,
    pub span: Span,
}

/// The receiver type under which the method is looked up.
pub open spec fn query_receiver(m: MethodName, args: Seq<TyExpression>) -> Ty {
    match m {
        MethodName::FromType { receiver_type, .. } => receiver_type,
        _ => if args.len() > 0 { args[0].ty } else { Ty::Unknown },
    }
}

/// The module in which the method is looked up: a named type stands for a module of its
/// own name.
pub open spec fn query_module(m: MethodName) -> Seq<u64> {
    match m {
        MethodName::FromType { prefixes, receiver_type, .. } => match receiver_type {
            Ty::Custom(n) => seq![n],
            _ => prefixes@,
        },
        MethodName::FromTrait { call_path } => call_path.prefixes@,
        MethodName::FromModule { .. } => Seq::empty(),
    }
}

/// The name of the method looked up.
pub open spec fn query_name(m: MethodName) -> u64 {
    match m {
        MethodName::FromType { method_name, .. } => method_name,
        MethodName::FromTrait { call_path } => call_path.suffix,
        MethodName::FromModule { method_name } => method_name,
    }
}

/// `t` with the first type parameter from position `k` on that it names replaced by its value.
pub open spec fn subst_from(t: Ty, tps: Seq<u64>, vals: Seq<Ty>, k: int) -> Ty
    decreases tps.len() - k,
{
    if k < 0 || k >= tps.len() {
        t
    } else if t == Ty::Generic(tps[k]) {
        vals[k]
    } else {
        subst_from(t, tps, vals, k + 1)
    }
}

pub open spec fn subst(t: Ty, tps: Seq<u64>, vals: Seq<Ty>) -> Ty {
    subst_from(t, tps, vals, 0)
}

/// The type inferred for parameter `p`: that of the argument at the first position from
/// `k` on whose declared type is `p`; unknown when there is none.
pub open spec fn inferred_from(p: u64, params: Seq<Param>, args: Seq<TyExpression>, k: int) -> Ty
    decreases params.len() - k,
{
    if k < 0 || k >= params.len() || k >= args.len() {
        Ty::Unknown
    } else if params[k].ty == Ty::Generic(p) {
        args[k].ty
    } else {
        inferred_from(p, params, args, k + 1)
    }
}

/// The values of a declaration's type parameters at a call: the explicit type arguments
/// where any are written, else what the arguments give.
pub open spec fn type_values(decl: FunctionDecl, type_args: Seq<Ty>, args: Seq<TyExpression>) -> Seq<Ty> {
    if type_args.len() > 0 {
        type_args
    } else {
        Seq::new(decl.type_params@.len(), |k: int| inferred_from(decl.type_params@[k], decl.parameters@, args, 0))
    }
}

pub open spec fn subst_param(p: Param, tps: Seq<u64>, vals: Seq<Ty>) -> Param {
    Param { ty: subst(p.ty, tps, vals), ..p }
}

/// `inst` is `orig` with its type parameters replaced by `vals`, linked to `parent`.
pub open spec fn is_instance_of(inst: FunctionDecl, orig: FunctionDecl, vals: Seq<Ty>, parent: usize) -> bool {
    &&& inst.name == orig.name
    &&& inst.type_params@.len() == 0
    &&& inst.parameters@.len() == orig.parameters@.len()
    &&& forall|i: int| 0 <= i < inst.parameters@.len()
        ==> #[trigger] inst.parameters@[i] == subst_param(orig.parameters@[i], orig.type_params@, vals)
    &&& inst.return_type == subst(orig.return_type, orig.type_params@, vals)
    &&& inst.purity == orig.purity
    &&& inst.is_public == orig.is_public
    &&& inst.is_contract_call == orig.is_contract_call
    &&& inst.is_payable == orig.is_payable
    &&& inst.selector == orig.selector
    &&& inst.span == orig.span
    &&& inst.parent == Some(parent)
}

/// Replaces a type parameter by its value.
pub fn substitute(t: Ty, tps: &Vec<u64>, vals: &Vec<Ty>) -> (r: Ty)
    requires
        tps@.len() == vals@.len(),
    ensures
        r == subst(t, tps@, vals@),
{
    let mut k: usize = 0;
    while k < tps.len()
        invariant
            tps@.len() == vals@.len(),
            k <= tps@.len(),
            subst_from(t, tps@, vals@, 0) == subst_from(t, tps@, vals@, k as int),
        decreases tps@.len() - k,
    {
        if t == Ty::Generic(tps[k]) {
            return vals[k];
        }
        k += 1;
    }
    t
}

/// Infers the value of type parameter `p` from the arguments.
pub fn infer_type_argument(p: u64, params: &Vec<Param>, args: &Vec<TyExpression>) -> (r: Ty)
    ensures
        r == inferred_from(p, params@, args@, 0),
{
    let mut k: usize = 0;
    while k < params.len() && k < args.len()
        invariant
            k <= params@.len(),
            inferred_from(p, params@, args@, 0) == inferred_from(p, params@, args@, k as int),
        decreases params@.len() - k,
    {
        if params[k].ty == Ty::Generic(p) {
            return args[k].ty;
        }
        k += 1;
    }
    Ty::Unknown
}

/// Specializes `decl` for a call: the copy has no type parameters left and is linked to
/// `parent`. Fails when explicit type arguments are written in another number than the
/// declaration has type parameters.
pub fn monomorphize(decl: &FunctionDecl, type_args: &Vec<Ty>, args: &Vec<TyExpression>, parent: usize, span: Span) -> (r: Result<FunctionDecl, CompileError>)
    ensures
        (type_args@.len() > 0 && type_args@.len() != decl.type_params@.len()) ==> r == Err::<FunctionDecl, CompileError>(
            CompileError::TypeArgumentArityMismatch { expected: decl.type_params@.len() as usize, given: type_args@.len() as usize, span }),
        !(type_args@.len() > 0 && type_args@.len() != decl.type_params@.len()) ==> (r matches Ok(inst)
            && is_instance_of(inst, *decl, type_values(*decl, type_args@, args@), parent)),
{
    let tps = &decl.type_params;
    if type_args.len() > 0 && type_args.len() != tps.len() {
        return Err(CompileError::TypeArgumentArityMismatch { expected: tps.len(), given: type_args.len(), span });
    }
    let mut vals: Vec<Ty> = Vec::new();
    if type_args.len() > 0 {
        vals = type_args.clone();
    } else {
        let mut k: usize = 0;
        while k < tps.len()
            invariant
                k <= tps@.len(),
                vals@.len() == k,
                forall|j: int| 0 <= j < k ==> #[trigger] vals@[j] == inferred_from(tps@[j], decl.parameters@, args@, 0),
            decreases tps@.len() - k,
        {
            vals.push(infer_type_argument(tps[k], &decl.parameters, args));
            k += 1;
        }
    }
    assert(vals@ =~= type_values(*decl, type_args@, args@));
    let mut params: Vec<Param> = Vec::new();
    let mut i: usize = 0;
    while i < decl.parameters.len()
        invariant
            i <= decl.parameters@.len(),
            params@.len() == i,
            tps@.len() == vals@.len(),
            forall|j: int| 0 <= j < i ==> #[trigger] params@[j] == subst_param(decl.parameters@[j], tps@, vals@),
        decreases decl.parameters@.len() - i,
    {
        let p = decl.parameters[i];
        params.push(Param { ty: substitute(p.ty, tps, &vals), ..p });
        i += 1;
    }
    let return_type = substitute(decl.return_type, tps, &vals);
    Ok(FunctionDecl {
        name: decl.name,
        type_params: Vec::new(),
        parameters: params,
        return_type,
        purity: decl.purity,
        is_public: decl.is_public,
        is_contract_call: decl.is_contract_call,
        is_payable: decl.is_payable,
        selector: decl.selector,
        span: decl.span,
        parent: Some(parent),
    })
}

/// Whether a module of the given path exists.
pub open spec fn module_exists(ns: Namespace, path: Seq<u64>) -> bool {
    exists|i: int| 0 <= i < ns.modules@.len() && #[trigger] ns.modules@[i]@ == path
}

/// Whether method entry `i` answers the lookup that a call written as `m` makes.
pub open spec fn entry_matches(ns: Namespace, m: MethodName, args: Seq<TyExpression>, i: int) -> bool {
    matches_method(ns.methods@[i], query_receiver(m, args), query_module(m), query_name(m))
}

/// Whether the module that the call names is found (only a type path names one).
pub open spec fn module_found(ns: Namespace, m: MethodName) -> bool {
    m is FromType ==> module_exists(ns, query_module(m))
}

/// Entry `i` is the one entry that answers the lookup.
pub open spec fn sole_match(ns: Namespace, m: MethodName, args: Seq<TyExpression>, i: int) -> bool {
    &&& 0 <= i < ns.methods@.len()
    &&& entry_matches(ns, m, args, i)
    &&& forall|j: int| 0 <= j < ns.methods@.len() && j != i ==> !#[trigger] entry_matches(ns, m, args, j)
}

/// Resolves a call to a declaration: looks the method up as the call's shape says, then
/// stores its instantiation for the call and returns the new id, linked to the generic one.
pub fn resolve_method_name(ns: &Namespace, engine: &mut DeclarationEngine, binding: &TypeBinding, args: &Vec<TyExpression>) -> (r: Result<usize, CompileError>)
    ensures
        r is Err ==> final(engine)@ == old(engine)@,
        r matches Ok(id) ==> id == old(engine)@.len() && final(engine)@.len() == old(engine)@.len() + 1
            && final(engine)@.drop_last() == old(engine)@,
        !module_found(*ns, binding.inner) ==> r == Err::<usize, CompileError>(CompileError::ModuleNotFound { span: binding.span }),
        module_found(*ns, binding.inner) && (forall|i: int| 0 <= i < ns.methods@.len() ==> !#[trigger] entry_matches(*ns, binding.inner, args@, i))
            ==> r == Err::<usize, CompileError>(CompileError::MethodNotFound { name: query_name(binding.inner), span: binding.span }),
        module_found(*ns, binding.inner) && (exists|i: int, j: int| 0 <= i < j < ns.methods@.len()
            && #[trigger] entry_matches(*ns, binding.inner, args@, i) && #[trigger] entry_matches(*ns, binding.inner, args@, j))
            ==> r == Err::<usize, CompileError>(CompileError::AmbiguousMethod { name: query_name(binding.inner), span: binding.span }),
        forall|i: int| module_found(*ns, binding.inner) && #[trigger] sole_match(*ns, binding.inner, args@, i) ==> {
            let d = ns.methods@[i].decl;
            let orig = old(engine)@[d as int];
            &&& d >= old(engine)@.len() ==> r == Err::<usize, CompileError>(CompileError::DeclarationNotFound { id: d, span: binding.span })
            &&& (d < old(engine)@.len() && binding.type_arguments@.len() > 0
                && binding.type_arguments@.len() != orig.type_params@.len()) ==> r == Err::<usize, CompileError>(
                CompileError::TypeArgumentArityMismatch { expected: orig.type_params@.len() as usize, given: binding.type_arguments@.len() as usize, span: binding.span })
            &&& (d < old(engine)@.len() && !(binding.type_arguments@.len() > 0
                && binding.type_arguments@.len() != orig.type_params@.len())) ==> {
                &&& r == Ok::<usize, CompileError>(old(engine)@.len() as usize)
                &&& final(engine)@.len() == old(engine)@.len() + 1
                &&& final(engine)@.drop_last() == old(engine)@
                &&& is_instance_of(final(engine)@.last(), orig, type_values(orig, binding.type_arguments@, args@), d)
            }
        },
{
    let ghost m = binding.inner;
    let (receiver, module, name): (Ty, Vec<u64>, u64) = match &binding.inner {
        MethodName::FromType { prefixes, receiver_type, method_name, .. } => {
            let module = match receiver_type {
                Ty::Custom(n) => vec![*n],
                _ => prefixes.clone(),
            };
            if !ns.check_submodule(&module) {
                assert(module@ =~= query_module(m));
                return Err(CompileError::ModuleNotFound { span: binding.span });
            }
            (*receiver_type, module, *method_name)
        },
        MethodName::FromTrait { call_path } => {
            let receiver = if args.len() > 0 { args[0].ty } else { Ty::Unknown };
            (receiver, call_path.prefixes.clone(), call_path.suffix)
        },
        MethodName::FromModule { method_name } => {
            let receiver = if args.len() > 0 { args[0].ty } else { Ty::Unknown };
            (receiver, Vec::new(), *method_name)
        },
    };
    assert(receiver == query_receiver(m, args@));
    assert(module@ =~= query_module(m));
    assert(name == query_name(m));
    let found = ns.find_method_for_type(receiver, &module, name, binding.span);
    let d = match found {
        Ok(d) => d,
        Err(e) => {
            assert forall|i: int| #[trigger] sole_match(*ns, m, args@, i) implies false by {
                assert(matches_method(ns.methods@[i], receiver, module@, name));
                if e == (CompileError::AmbiguousMethod { name, span: binding.span }) {
                    let (a, b) = choose|a: int, b: int| 0 <= a < b < ns.methods@.len()
                        && #[trigger] matches_method(ns.methods@[a], receiver, module@, name)
                        && #[trigger] matches_method(ns.methods@[b], receiver, module@, name);
                    if a != i {
                        assert(!entry_matches(*ns, m, args@, a));
                    } else {
                        assert(!entry_matches(*ns, m, args@, b));
                    }
                }
            }
            assert(forall|i: int| 0 <= i < ns.methods@.len() ==> #[trigger] entry_matches(*ns, m, args@, i)
                == matches_method(ns.methods@[i], receiver, module@, name));
            proof {
            if forall|i: int| 0 <= i < ns.methods@.len() ==> !#[trigger] entry_matches(*ns, m, args@, i) {
                assert forall|i: int| 0 <= i < ns.methods@.len() implies !#[trigger] matches_method(ns.methods@[i], receiver, module@, name) by {
                    assert(!entry_matches(*ns, m, args@, i));
                }
            }
            if exists|a: int, b: int| 0 <= a < b < ns.methods@.len()
                && #[trigger] entry_matches(*ns, m, args@, a) && #[trigger] entry_matches(*ns, m, args@, b) {
                let (a, b) = choose|a: int, b: int| 0 <= a < b < ns.methods@.len()
                    && #[trigger] entry_matches(*ns, m, args@, a) && #[trigger] entry_matches(*ns, m, args@, b);
                assert(matches_method(ns.methods@[a], receiver, module@, name));
                assert(matches_method(ns.methods@[b], receiver, module@, name));
            }
            }
            return Err(e);
        },
    };
    proof {
        let i = choose|i: int| 0 <= i < ns.methods@.len()
            && #[trigger] matches_method(ns.methods@[i], receiver, module@, name)
            && ns.methods@[i].decl == d
            && forall|j: int| 0 <= j < ns.methods@.len() && j != i ==> !#[trigger] matches_method(ns.methods@[j], receiver, module@, name);
        assert(forall|j: int| 0 <= j < ns.methods@.len() ==> #[trigger] entry_matches(*ns, m, args@, j)
            == matches_method(ns.methods@[j], receiver, module@, name));
        assert(sole_match(*ns, m, args@, i));
        assert forall|k: int| #[trigger] sole_match(*ns, m, args@, k) implies k == i by {
            if k != i {
                assert(!entry_matches(*ns, m, args@, k));
            }
        }
        assert(!exists|a: int, b: int| 0 <= a < b < ns.methods@.len()
            && #[trigger] entry_matches(*ns, m, args@, a) && #[trigger] entry_matches(*ns, m, args@, b));
    }
    let orig = match engine.get_function(d) {
        Some(f) => f,
        None => return Err(CompileError::DeclarationNotFound { id: d, span: binding.span }),
    };
    let inst = monomorphize(orig, &binding.type_arguments, args, d, binding.span)?;
    let id = engine.insert_function(inst);
    assert(engine@.drop_last() =~= old(engine)@);
    Ok(id)
}

} // verus!
