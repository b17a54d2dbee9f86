//! Queries over the reviews of a product.

use vstd::prelude::*;
use crate::order_datatypes::ReviewOrderInput;
use crate::pagination::{
    effective_direction, effective_field, filtered_reviews, page_end, page_start, paginate,
    skip_count, sort_reviews, ReviewFilter,
};
use crate::product_variant::{calculate_average_rating, default_page, rating_sum, visible_reviews};
use crate::review::Product;
use crate::review_connection::ReviewConnection;
use crate::review_store::ReviewStore;

verus! {

impl Product {
    /// Retrieves the reviews about any variant of this product as a
    /// bounded, ordered, counted page.
    pub fn reviews(
        &self,
        store: &ReviewStore,
        first: Option<u32>,
        skip: Option<u64>,
        order_by: Option<ReviewOrderInput>,
    ) -> (page: ReviewConnection)
        ensures
            ({
                let filtered = filtered_reviews(store.reviews@, ReviewFilter::ByProduct(self._id));
                let sorted = sort_reviews(
                    filtered,
                    effective_field(order_by),
                    effective_direction(order_by),
                );
                let start = page_start(sorted.len() as int, skip_count(skip));
                let end = page_end(sorted.len() as int, start, first);
                &&& page.nodes@ == sorted.subrange(start, end)
                &&& page.total_count == filtered.len()
                &&& page.has_next_page == (skip_count(skip) + page.nodes@.len() < filtered.len())
            }),
    {
        paginate(&store.reviews, ReviewFilter::ByProduct(self._id), order_by, skip, first)
    }

    /// Retrieves the average rating of this product over the visible
    /// reviews of its variants, as a star sum and review count, or nothing
    /// when no visible review exists.
    pub fn average_rating(&self, store: &ReviewStore) -> (r: Option<(u128, u64)>)
        ensures
            ({
                let visible = visible_reviews(
                    default_page(store.reviews@, ReviewFilter::ByProduct(self._id)),
                );
                match r {
                    None => visible.len() == 0,
                    Some((sum, count)) => {
                        &&& visible.len() > 0
                        &&& sum as int == rating_sum(visible)
                        &&& count as int == visible.len()
                    },
                }
            }),
    {
        let page = self.reviews(store, None, None, None);
        proof {
            let sorted = default_page(store.reviews@, ReviewFilter::ByProduct(self._id));
            assert(sorted.subrange(0, sorted.len() as int) =~= sorted);
        }
        calculate_average_rating(&page)
    }
}

} // verus!
