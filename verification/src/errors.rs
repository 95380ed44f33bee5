//! Error taxonomy for one invocation.
//!
//! Every failure is local to the request that caused it and is returned as a
//! value; nothing here aborts the serving process. Each error carries the
//! tenant and module identifiers so the caller can log and choose a response.

use vstd::prelude::*;

verus! {

/// The kinds of failure one invocation can report.
#[derive(Clone, Copy, Debug, PartialEq, Eq, Structural)]
pub enum ErrorKind {
    /// The backing store holds no bytes for the requested module identifier.
    ModuleNotFound,
    /// The stored bytes are not a valid module for the runtime engine.
    CompileError,
    /// The compiled module could not be bound to a fresh sandbox instance
    /// (linking or capability mismatch, or the entry point is missing).
    InstantiationError,
    /// The module faulted inside the sandbox (out-of-bounds access,
    /// unreachable instruction, explicit abort).
    ExecutionTrap,
    /// The module exceeded its execution budget and was force-terminated.
    ExecutionTimeout,
    /// The captured output was not valid UTF-8 text.
    OutputEncodingError,
    /// Internal bookkeeping of the tenant partition failed.
    TenantPartitionError,
}

/// A failed invocation: the error kind together with the tenant and module
/// identifiers it concerns.
#[derive(Debug)]
pub struct FaasError {
    pub tenant: String,
    pub module: String,
    pub kind: ErrorKind,
}

impl FaasError {
    /// Tag an error kind with the tenant and module it belongs to.
    pub fn new(tenant: &String, module: &String, kind: ErrorKind) -> (r: FaasError)
        ensures
            r.tenant@ == tenant@,
            r.module@ == module@,
            r.kind == kind,
    {
        FaasError { tenant: tenant.clone(), module: module.clone(), kind }
    }
}

} // verus!
