//! Query result pages.

use vstd::prelude::*;
use crate::review::Review;

verus! {

/// A connection of reviews: a bounded, ordered slice of a larger result
/// set plus count metadata. Not persisted.
#[derive(PartialEq, Debug)]
pub struct ReviewConnection {
    /// The resulting entities.
    pub nodes: Vec<Review>,
    /// Whether this connection has a next page.
    pub has_next_page: bool,
    /// The total amount of items in this connection, ignoring skip and
    /// limit.
    pub total_count: u64,
}

} // verus!
