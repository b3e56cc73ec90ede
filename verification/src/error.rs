use vstd::prelude::*;

verus! {

/// Errors of the royalty and event subsystem.
///
/// Every error aborts the whole invoking call: a mutating operation that
/// fails leaves the registry exactly as it was, and a query that fails
/// returns no partial result.
#[derive(Clone, Copy, Debug, PartialEq, Eq, Structural)]
pub enum NFTCoreError {
    /// A caller other than the installer attempted a mutating royalty
    /// operation.
    PermissionDenied,
    /// A royalty query found neither a per-token override nor a collection
    /// default.
    RoyaltyNotConfigured,
    /// The referenced token identifier is unknown to the ownership and
    /// supply state.
    TokenNotFound,
    /// The collection-name slot used to resolve the contract package is
    /// unset.
    MissingCollectionName,
    /// The collection-name slot holds a malformed value.
    InvalidCollectionName,
}

} // verus!
