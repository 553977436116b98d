//! Expressions, callable declarations, the declaration arena and the namespace.
use vstd::prelude::*;
use crate::errors::CompileError;
use crate::types::{unifies, unify, Purity, Span, Ty};

verus! {

/// Reserved symbols: the only legal names of contract-call parameters.
pub const GAS_PARAM: u64 = 0;
pub const COINS_PARAM: u64 = 1;
pub const ASSET_ID_PARAM: u64 = 2;

/// The shape of an expression as far as call checking reads it.
#[derive(PartialEq, Eq, Structural, Clone, Copy, Debug)]
pub enum ExprKind {
    /// An integer literal.
    Literal(u64),
    /// A reference to a variable or constant by name.
    Variable(u64),
    /// A direct access to the storage field of the given name.
    StorageAccess(u64),
    /// An expression already typed elsewhere, with the given type.
    Typed(Ty),
    /// The placeholder for an expression that failed to type-check.
    Error,
}

/// An untyped expression as written at the call site.
#[derive(PartialEq, Eq, Structural, Clone, Copy, Debug)]
pub struct Expression {
    pub kind: ExprKind,
    pub span: Span,
}

/// A typed expression.
#[derive(PartialEq, Eq, Structural, Clone, Copy, Debug)]
pub struct TyExpression {
    pub kind: ExprKind,
    pub ty: Ty,
    pub span: Span,
}

/// A declared parameter of a callable.
#[derive(PartialEq, Eq, Structural, Clone, Copy, Debug)]
pub struct Param {
    pub name: u64,
    pub ty: Ty,
    pub is_self: bool,
    pub is_mutable: bool,
}

/// A callable declaration. `span.unit` is the compilation unit that owns it.
#[derive(Clone, Debug)]
pub struct FunctionDecl {
    pub name: u64,
    pub type_params: Vec<u64>,
    pub parameters: Vec<Param>,
    pub return_type: Ty,
    pub purity: Purity,
    pub is_public: bool,
    pub is_contract_call: bool,
    pub is_payable: bool,
    /// The ABI selector of the signature, where the signature can be encoded.
    pub selector: Option<[u8; 4]>,
    pub span: Span,
    /// The generic declaration this one was instantiated from.
    pub parent: Option<usize>,
}

/// The arena of callable declarations, addressed by index.
pub struct DeclarationEngine {
    pub decls: Vec<FunctionDecl>,
}

impl DeclarationEngine {
    pub open spec fn view(&self) -> Seq<FunctionDecl> {
        self.decls@
    }

    pub fn new() -> (r: DeclarationEngine)
        ensures
            r@.len() == 0,
    {
        DeclarationEngine { decls: Vec::new() }
    }

    /// Stores a declaration and returns its id.
    pub fn insert_function(&mut self, decl: FunctionDecl) -> (id: usize)
        ensures
            final(self)@ == old(self)@.push(decl),
            id == old(self)@.len(),
    {
        let id = self.decls.len();
        self.decls.push(decl);
        id
    }

    /// Looks a declaration up; `None` for an id the arena never handed out.
    pub fn get_function(&self, id: usize) -> (r: Option<&FunctionDecl>)
        ensures
            id < self@.len() ==> r == Some(&self@[id as int]),
            id >= self@.len() ==> r is None,
    {
        if id < self.decls.len() {
            Some(&self.decls[id])
        } else {
            None
        }
    }
}

/// A variable or constant in scope.
#[derive(PartialEq, Eq, Structural, Clone, Copy, Debug)]
pub struct VarDecl {
    pub name: u64,
    pub ty: Ty,
    pub is_constant: bool,
    pub is_mutable: bool,
}

/// A method made available for receivers of type `receiver` in module `module`.
#[derive(Clone, Debug)]
pub struct MethodEntry {
    pub receiver: Ty,
    pub module: Vec<u64>,
    pub name: u64,
    pub decl: usize,
}

/// A declared storage field.
#[derive(PartialEq, Eq, Structural, Clone, Copy, Debug)]
pub struct StorageField {
    pub name: u64,
    pub ty: Ty,
}

/// The symbol table that call checking consults.
#[derive(Clone, Debug)]
pub struct Namespace {
    /// The module paths that exist; the empty path is the root.
    pub modules: Vec<Vec<u64>>,
    pub methods: Vec<MethodEntry>,
    pub variables: Vec<VarDecl>,
    pub has_storage: bool,
    pub storage_fields: Vec<StorageField>,
}

/// The index of the last of the first `k` variables named `name`, or -1.
pub open spec fn find_var(vars: Seq<VarDecl>, name: u64, k: int) -> int
    decreases k,
{
    if k <= 0 || k > vars.len() {
        -1
    } else if vars[k - 1].name == name {
        k - 1
    } else {
        find_var(vars, name, k - 1)
    }
}

/// What `name` refers to: the last variable or constant declared under it.
pub open spec fn symbol_of(ns: Namespace, name: u64) -> Option<VarDecl> {
    let i = find_var(ns.variables@, name, ns.variables@.len() as int);
    if i >= 0 { Some(ns.variables@[i]) } else { None }
}

/// The index of the first storage field from position `k` on named `name`, or -1.
pub open spec fn find_field(fields: Seq<StorageField>, name: u64, k: int) -> int
    decreases fields.len() - k,
{
    if k < 0 || k >= fields.len() {
        -1
    } else if fields[k].name == name {
        k
    } else {
        find_field(fields, name, k + 1)
    }
}

pub open spec fn field_index(ns: Namespace, name: u64) -> Option<usize> {
    let i = find_field(ns.storage_fields@, name, 0);
    if i >= 0 { Some(i as usize) } else { None }
}

/// Whether a method entry serves a lookup of `name` in `module` for `receiver`.
pub open spec fn matches_method(e: MethodEntry, receiver: Ty, module: Seq<u64>, name: u64) -> bool {
    e.module@ == module && e.name == name && unifies(e.receiver, receiver)
}

/// Element-wise equality of two symbol paths.
pub fn same_path(a: &Vec<u64>, b: &Vec<u64>) -> (r: bool)
    ensures
        r == (a@ == b@),
{
    if a.len() != b.len() {
        return false;
    }
    let mut i: usize = 0;
    while i < a.len()
        invariant
            a@.len() == b@.len(),
            i <= a@.len(),
            forall|j: int| 0 <= j < i ==> a@[j] == b@[j],
        decreases a@.len() - i,
    {
        if a[i] != b[i] {
            return false;
        }
        i += 1;
    }
    assert(a@ =~= b@);
    true
}

impl Namespace {
    /// Whether a module of the given path exists.
    pub fn check_submodule(&self, path: &Vec<u64>) -> (r: bool)
        ensures
            r == exists|i: int| 0 <= i < self.modules@.len() && #[trigger] self.modules@[i]@ == path@,
    {
        let mut i: usize = 0;
        while i < self.modules.len()
            invariant
                i <= self.modules@.len(),
                forall|j: int| 0 <= j < i ==> #[trigger] self.modules@[j]@ != path@,
            decreases self.modules@.len() - i,
        {
            if same_path(&self.modules[i], path) {
                return true;
            }
            i += 1;
        }
        false
    }

    /// The variable or constant that `name` refers to: the last one declared under it.
    pub fn resolve_symbol(&self, name: u64) -> (r: Option<VarDecl>)
        ensures
            r == symbol_of(*self, name),
            r is None ==> forall|i: int| 0 <= i < self.variables@.len() ==> #[trigger] self.variables@[i].name != name,
            r matches Some(v) ==> exists|i: int| 0 <= i < self.variables@.len() && self.variables@[i] == v
                && v.name == name
                && forall|j: int| i < j < self.variables@.len() ==> #[trigger] self.variables@[j].name != name,
    {
        let mut i: usize = self.variables.len();
        while i > 0
            invariant
                i <= self.variables@.len(),
                forall|j: int| i <= j < self.variables@.len() ==> #[trigger] self.variables@[j].name != name,
                find_var(self.variables@, name, self.variables@.len() as int) == find_var(self.variables@, name, i as int),
            decreases i,
        {
            i -= 1;
            if self.variables[i].name == name {
                return Some(self.variables[i]);
            }
        }
        None
    }

    /// The position of the first storage field named `name`.
    pub fn storage_field_index(&self, name: u64) -> (r: Option<usize>)
        ensures
            r == field_index(*self, name),
            r is None ==> forall|i: int| 0 <= i < self.storage_fields@.len() ==> #[trigger] self.storage_fields@[i].name != name,
            r matches Some(k) ==> k < self.storage_fields@.len() && self.storage_fields@[k as int].name == name
                && forall|j: int| 0 <= j < k ==> #[trigger] self.storage_fields@[j].name != name,
    {
        let mut i: usize = 0;
        while i < self.storage_fields.len()
            invariant
                i <= self.storage_fields@.len(),
                forall|j: int| 0 <= j < i ==> #[trigger] self.storage_fields@[j].name != name,
                find_field(self.storage_fields@, name, 0) == find_field(self.storage_fields@, name, i as int),
            decreases self.storage_fields@.len() - i,
        {
            if self.storage_fields[i].name == name {
                return Some(i);
            }
            i += 1;
        }
        None
    }

    /// Looks up the one method named `name` in `module` whose receiver type unifies with
    /// `receiver`: not found when none does, ambiguous when two do.
    pub fn find_method_for_type(&self, receiver: Ty, module: &Vec<u64>, name: u64, span: Span) -> (r: Result<usize, CompileError>)
        ensures
            r matches Ok(d) ==> exists|i: int| 0 <= i < self.methods@.len()
                && #[trigger] matches_method(self.methods@[i], receiver, module@, name)
                && self.methods@[i].decl == d
                && forall|j: int| 0 <= j < self.methods@.len() && j != i ==> !#[trigger] matches_method(self.methods@[j], receiver, module@, name),
            r == Err::<usize, CompileError>(CompileError::MethodNotFound { name, span })
                <==> forall|i: int| 0 <= i < self.methods@.len() ==> !#[trigger] matches_method(self.methods@[i], receiver, module@, name),
            r == Err::<usize, CompileError>(CompileError::AmbiguousMethod { name, span })
                <==> exists|i: int, j: int| 0 <= i < j < self.methods@.len()
                    && #[trigger] matches_method(self.methods@[i], receiver, module@, name)
                    && #[trigger] matches_method(self.methods@[j], receiver, module@, name),
            r is Ok || r == Err::<usize, CompileError>(CompileError::MethodNotFound { name, span })
                || r == Err::<usize, CompileError>(CompileError::AmbiguousMethod { name, span }),
    {
        let mut found: Option<usize> = None;
        let mut i: usize = 0;
        while i < self.methods.len()
            invariant
                i <= self.methods@.len(),
                found is None ==> forall|j: int| 0 <= j < i ==> !#[trigger] matches_method(self.methods@[j], receiver, module@, name),
                found matches Some(k) ==> k < i && matches_method(self.methods@[k as int], receiver, module@, name)
                    && forall|j: int| 0 <= j < i && j != k ==> !#[trigger] matches_method(self.methods@[j], receiver, module@, name),
            decreases self.methods@.len() - i,
        {
            let e = &self.methods[i];
            let hit = e.name == name && same_path(&e.module, module) && unify(e.receiver, receiver);
            if hit {
                if let Some(k) = found {
                    assert(matches_method(self.methods@[k as int], receiver, module@, name));
                    assert(matches_method(self.methods@[i as int], receiver, module@, name));
                    return Err(CompileError::AmbiguousMethod { name, span });
                }
                found = Some(i);
            }
            i += 1;
        }
        match found {
            Some(k) => {
                assert(matches_method(self.methods@[k as int], receiver, module@, name));
                Ok(self.methods[k].decl)
            },
            None => Err(CompileError::MethodNotFound { name, span }),
        }
    }
}

} // verus!
