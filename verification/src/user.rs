//! Queries over the reviews of a user.

use vstd::prelude::*;
use crate::order_datatypes::ReviewOrderInput;
use crate::pagination::{
    effective_direction, effective_field, filtered_reviews, page_end, page_start, paginate,
    skip_count, sort_reviews, ReviewFilter,
};
use crate::review::User;
use crate::review_connection::ReviewConnection;
use crate::review_store::ReviewStore;

verus! {

impl User {
    /// Retrieves the reviews written by this user as a bounded, ordered,
    /// counted page.
    pub fn reviews(
        &self,
        store: &ReviewStore,
        first: Option<u32>,
        skip: Option<u64>,
        order_by: Option<ReviewOrderInput>,
    ) -> (page: ReviewConnection)
        ensures
            ({
                let filtered = filtered_reviews(store.reviews@, ReviewFilter::ByUser(self._id));
                let sorted = sort_reviews(
                    filtered,
                    effective_field(order_by),
                    effective_direction(order_by),
                );
                let start = page_start(sorted.len() as int, skip_count(skip));
                let end = page_end(sorted.len() as int, start, first);
                &&& page.nodes@ == sorted.subrange(start, end)
                &&& page.total_count == filtered.len()
                &&& page.has_next_page == (skip_count(skip) + page.nodes@.len() < filtered.len())
            }),
    {
        paginate(&store.reviews, ReviewFilter::ByUser(self._id), order_by, skip, first)
    }
}

} // verus!
