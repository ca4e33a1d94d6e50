//! Error taxonomy of the write paths.
use vstd::prelude::*;

verus! {

/// Why a transactional write path must roll back: an insert reported zero
/// affected rows (a storage-layer no-op, not a business rule), or the store
/// itself failed mid-transaction.
#[derive(Clone, Copy, Debug, PartialEq, Eq, Structural)]
pub enum WriteError {
    NoRowsWritten,
    StoreFault,
}

/// Why a catalog write request is refused before anything is written.  All
/// of these stem from caller-supplied data and surface as client errors.
#[derive(Clone, Copy, Debug, PartialEq, Eq, Structural)]
pub enum CatalogError {
    /// An identifier text is not a well-formed UUID.
    BadId,
    /// The declared parent entity does not exist.
    ParentMissing,
    /// The declared parent is itself a child: only two levels are allowed.
    ParentNotRoot,
    /// An entity with this name already exists in the same scope.
    DuplicateName,
    /// The start date text is not a well-formed RFC 3339 instant.
    BadStartDate,
    /// The end date text is not a well-formed RFC 3339 instant.
    BadEndDate,
    /// The end date lies before the start date.
    DatesOutOfOrder,
    /// The seat capacity is negative.
    NegativeSeats,
}

} // verus!
