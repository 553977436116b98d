//! Type descriptors, source spans, purity and the unification relation.
use vstd::prelude::*;

verus! {

/// A source location: the compilation unit it lies in and its byte range.
#[derive(PartialEq, Eq, Structural, Clone, Copy, Debug)]
pub struct Span {
    pub unit: u64,
    pub start: u64,
    pub end: u64,
}

/// A type descriptor. Identifiers (type names, generic parameters) are interned symbols.
#[derive(PartialEq, Eq, Structural, Clone, Copy, Debug)]
pub enum Ty {
    /// Not yet constrained; unifies with anything.
    Unknown,
    /// The type of an expression that failed to type-check.
    ErrorRecovery,
    /// An integer literal whose width is not yet fixed.
    Numeric,
    UnsignedInteger(u8),
    Boolean,
    B256,
    Unit,
    /// A nominal type declared in the program.
    Custom(u64),
    /// A generic type parameter of a declaration.
    Generic(u64),
    /// A handle on a deployed contract; `address_known` says whether its address is static.
    ContractCaller { abi: u64, address_known: bool, address: u64 },
}

/// Whether `a` may stand where `b` is declared.
pub open spec fn unifies(a: Ty, b: Ty) -> bool {
    a == b || a is Unknown || b is Unknown || a is ErrorRecovery || b is ErrorRecovery
        || (a is Numeric && b is UnsignedInteger) || (a is UnsignedInteger && b is Numeric)
}

/// Unifies the type of an argument with a declared type.
pub fn unify(a: Ty, b: Ty) -> (r: bool)
    ensures
        r == unifies(a, b),
{
    if a == b {
        return true;
    }
    match (a, b) {
        (Ty::Unknown, _) | (_, Ty::Unknown) | (Ty::ErrorRecovery, _) | (_, Ty::ErrorRecovery) => true,
        (Ty::Numeric, Ty::UnsignedInteger(_)) | (Ty::UnsignedInteger(_), Ty::Numeric) => true,
        _ => false,
    }
}

/// Storage-access classification of a callable or of the context that calls.
#[derive(PartialEq, Eq, Structural, Clone, Copy, Debug)]
pub enum Purity {
    Pure,
    Reads,
    Writes,
    ReadsWrites,
}

/// Whether a caller of purity `caller` may call a callee of purity `callee`.
pub open spec fn purity_permits(caller: Purity, callee: Purity) -> bool {
    match caller {
        Purity::Pure => callee == Purity::Pure,
        Purity::Reads => callee == Purity::Pure || callee == Purity::Reads,
        Purity::Writes => true,
        Purity::ReadsWrites => true,
    }
}

impl Purity {
    pub fn can_call(&self, callee: Purity) -> (r: bool)
        ensures
            r == purity_permits(*self, callee),
    {
        match self {
            Purity::Pure => callee == Purity::Pure,
            Purity::Reads => callee == Purity::Pure || callee == Purity::Reads,
            Purity::Writes => true,
            Purity::ReadsWrites => true,
        }
    }
}

} // verus!
