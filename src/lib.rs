//! Method-call resolution and type checking for a contract-oriented language: argument
//! checking, method lookup, generic instantiation, the semantic checks on a call, the
//! contract-call selector, and unification of arguments with parameters.

pub mod types;
pub mod errors;
pub mod decl;
pub mod resolve;
pub mod arguments;
pub mod application;
pub mod laws;
