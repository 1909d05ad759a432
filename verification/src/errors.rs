//! The error taxonomy of the sale core.  Every domain failure carries a
//! distinct kind so the caller can react precisely; all errors are terminal
//! for the invocation.

use vstd::prelude::*;

verus! {

/// A terminal domain failure of a configuration, purchase or deletion call.
#[derive(Clone, Copy, Debug, PartialEq, Eq, Structural)]
pub enum FosterStudioError {
    /// A mutating or deleting caller does not match the stored authority.
    IncorrectAuthority,
    /// A field required to create a record is absent from the patch.
    MissingData,
    /// The sale has a start bound and the current time lies before it.
    SaleNotStarted,
    /// The sale has an end bound and the current time lies after it.
    SaleEnded,
    /// The effective supply cap has been reached.
    NoMoreSupply,
    /// The product is edition-linked but no master edition was supplied.
    MissingMasterEdition,
    /// The product is edition-linked but no edition instance was supplied.
    MissingEdition,
    /// The product is edition-linked but no claim marker was supplied.
    MissingClaimMarker,
    /// The per-edition claim cap has been reached.
    NoMoreClaims,
    /// A supplied auxiliary account does not match the expected identity.
    AccountMismatch,
}

} // verus!
