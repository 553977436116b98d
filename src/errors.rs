//! Diagnostics of call checking.
use vstd::prelude::*;
use crate::types::{Purity, Span, Ty};

verus! {

/// An error found while checking a call. Names are interned symbols.
#[derive(PartialEq, Eq, Structural, Clone, Copy, Debug)]
pub enum CompileError {
    MethodNotFound { name: u64, span: Span },
    AmbiguousMethod { name: u64, span: Span },
    ModuleNotFound { span: Span },
    /// A declaration id that the arena never handed out.
    DeclarationNotFound { id: usize, span: Span },
    TypeArgumentArityMismatch { expected: usize, given: usize, span: Span },
    UnknownVariable { name: u64, span: Span },
    NotAVariable { name: u64, span: Span },
    PrivateMethodCalled { name: u64, span: Span },
    StorageAccessMismatch { caller: Purity, callee: Purity, span: Span },
    CallParamForNonContractCallMethod { span: Span },
    ContractCallParamRepeated { name: u64, span: Span },
    UnrecognizedContractParam { name: u64, span: Span },
    CoinsPassedToNonPayableMethod { fn_name: u64, span: Span },
    StorageFieldDoesNotExist { name: u64, span: Span },
    AssociatedFunctionCalledAsMethod { fn_name: u64, span: Span },
    MethodRequiresMutableSelf { method_name: u64, variable: u64, span: Span },
    /// The first argument of a contract call is not a contract caller.
    NotAContractCaller { span: Span },
    ContractAddressMustBeKnown { span: Span },
    SelectorUnavailable { span: Span },
    ArgumentCountMismatch { method_syntax: bool, expected: usize, received: usize, span: Span },
    ArgumentTypeMismatch { provided: Ty, declared: Ty, span: Span },
}

} // verus!
