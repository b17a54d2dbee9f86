//! Error taxonomy of the review service.

use vstd::prelude::*;
use crate::review::Uuid;

verus! {

/// The kinds of entities the service knows about.
#[derive(Copy, Clone, Eq, PartialEq, Structural, Debug)]
pub enum EntityKind {
    User,
    Product,
    ProductVariant,
    Review,
}

/// Payload of a duplicate-review conflict: the user has already written a
/// review for the product variant.
#[derive(Copy, Clone, Eq, PartialEq, Structural, Debug)]
pub struct DuplicateReview {
    /// UUID of the user owning the existing review.
    pub user_id: Uuid,
    /// UUID of the product variant the existing review is about.
    pub product_variant_id: Uuid,
}

/// Failures of the review service.
///
/// Validation failures (`NotFound`, `Conflict`, `Unauthorized`) are terminal
/// for the current operation and never retried. `StorageError` is transient:
/// event ingestion reports it so that the delivery is retried.
#[derive(Copy, Clone, Eq, PartialEq, Structural, Debug)]
pub enum ReviewError {
    /// The referenced entity of the given kind and UUID is not known.
    NotFound(EntityKind, Uuid),
    /// A uniqueness rule was violated.
    Conflict(DuplicateReview),
    /// The acting user may not perform the operation.
    Unauthorized,
    /// A delivered event carries a topic this service is not subscribed to.
    UnknownTopic,
    /// A storage-layer query failed; no partial results are returned.
    QueryFailed,
    /// A storage-layer write failed; nothing was written.
    WriteFailed,
    /// A transient storage-layer failure; the operation may be retried.
    StorageError,
}

} // verus!
