use vstd::prelude::*;

verus! {

/// Typed failures surfaced to callers. None is retried internally.
#[derive(Clone, Copy, Debug, PartialEq, Eq, Structural)]
pub enum ContractError {
    /// The caller lacks the required role for the operation.
    Unauthorized,
    /// The queried entity is absent.
    NotFound,
    /// The rule table is missing or malformed.
    ConfigError,
    /// The persistence layer failed; fatal. The in-memory state of this
    /// crate cannot fail, so only a host-backed store raises it.
    StorageError,
}

} // verus!
