use vstd::prelude::*;

verus! {

/// The storage-level fault this contract can surface: a read of a record
/// that is not there. It models the not-found error the host's standard
/// library reports when a load by key fails, which the handlers propagate
/// unchanged.
#[derive(Clone, Copy, Debug, PartialEq, Eq, Structural)]
pub enum StdError {
    NotFound,
}

/// The contract-level error taxonomy.
///
/// `Unauthorized` covers true authorization failures and, deliberately, an
/// `UpdateMetadata` request against a token identifier with no record: the
/// absence of the token is folded into the authorization failure rather than
/// reported as a distinct not-found condition.
#[derive(Clone, Copy, Debug, PartialEq, Eq, Structural)]
pub enum ContractError {
    /// A storage-level fault propagated unchanged from the ledger.
    Std(StdError),
    /// The caller lacks the required identity.
    Unauthorized,
    /// A mint named a token identifier that already has a record.
    Claimed,
}

} // verus!
