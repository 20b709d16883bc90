use vstd::prelude::*;

verus! {

/// The single terminal error kind reported for a failed invocation.
///
/// Every check is fail-fast: the first violated condition aborts the whole
/// operation with one of these kinds and no externally visible effect.
#[derive(Clone, Copy, Debug, PartialEq, Eq, Structural)]
pub enum LifecycleError {
    /// An account pinned to a known program address has a different address.
    WrongProgramIdentity,
    /// A required transaction signature is missing.
    MissingSignature,
    /// The payer account is not writable.
    NotWritable,
    /// Vault cross-references do not match the supplied accounts, the account
    /// list has the wrong arity, the parameter record is malformed, or an
    /// account that must be uninitialized holds data.
    InvalidOrMismatchedAccountData,
    /// An account is not owned by the expected program.
    IllegalOwner,
    /// The external mirroring service rejected a planned request.
    ExternalServiceFailure,
}

} // verus!
