use vstd::prelude::*;

verus! {

/// Every way a call into the registry can be rejected.  A rejected call has
/// no effect at all: the caller's state and every record are left unchanged.
#[derive(Clone, Copy, Debug, PartialEq, Eq, Structural)]
pub enum Error {
    /// The caller presented a credential that does not grant the operation.
    Unauthorized,
    /// An attestation was requested for a different class than the credential's.
    WrongClass,
    /// The attested record belongs to a different collection or creator.
    IdentityMismatch,
    /// The collection has been closed and no longer accepts donations.
    CollectionClosed,
    /// The repository has been closed and no longer instantiates collections.
    RepositoryClosed,
    /// An input failed its validation constraints.
    ConstraintViolation,
    /// The records handed to the aggregation engine do not share an identity.
    AggregationMismatch,
    /// A close was requested on something already closed.
    AlreadyClosed,
}

} // verus!
