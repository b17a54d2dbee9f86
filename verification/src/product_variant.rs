//! Queries over the reviews of a product variant, and the shared
//! average-rating aggregate.

use vstd::prelude::*;
use crate::order_datatypes::{OrderDirection, ReviewOrderField, ReviewOrderInput};
use crate::pagination::{
    effective_direction, effective_field, filtered_reviews, page_end, page_start, paginate,
    skip_count, sort_reviews, ReviewFilter,
};
use crate::review::{ProductVariant, Review};
use crate::review_connection::ReviewConnection;
use crate::review_store::ReviewStore;

verus! {

/// The reviews of `s` that are visible, in order.
pub open spec fn visible_reviews(s: Seq<Review>) -> Seq<Review> {
    s.filter(|r: Review| r.is_visible)
}

/// The sum of the star values of the reviews of `s`.
pub open spec fn rating_sum(s: Seq<Review>) -> int
    decreases s.len(),
{
    if s.len() == 0 {
        0
    } else {
        rating_sum(s.drop_last()) + s.last().rating.spec_stars()
    }
}

/// Appending a review adds its star value to the rating sum.
pub proof fn lemma_rating_sum_push(s: Seq<Review>, x: Review)
    ensures
        rating_sum(s.push(x)) == rating_sum(s) + x.rating.spec_stars(),
{
    assert(s.push(x).drop_last() =~= s);
}

/// The star values of `s` sum to at most five per review.
proof fn lemma_rating_sum_bound(s: Seq<Review>)
    ensures
        0 <= rating_sum(s) <= 5 * s.len(),
    decreases s.len(),
{
    if s.len() > 0 {
        lemma_rating_sum_bound(s.drop_last());
    }
}

/// The default page over `s` under `filter`: every match, ordered by id,
/// ascending.
pub open spec fn default_page(s: Seq<Review>, filter: ReviewFilter) -> Seq<Review> {
    sort_reviews(filtered_reviews(s, filter), ReviewOrderField::Id, OrderDirection::Asc)
}

/// Shared function to calculate the average rating of a review connection.
///
/// Filters reviews with `is_visible == false` to exclude them from the
/// average rating. Returns the sum of the star values and the count of the
/// visible reviews, whose quotient is the average rating, or nothing when
/// no visible review exists — callers decide whether "no data" is an error
/// or a null value.
pub fn calculate_average_rating(review_connection: &ReviewConnection) -> (r: Option<(u128, u64)>)
    ensures
        ({
            let visible = visible_reviews(review_connection.nodes@);
            match r {
                None => visible.len() == 0,
                Some((sum, count)) => {
                    &&& visible.len() > 0
                    &&& sum as int == rating_sum(visible)
                    &&& count as int == visible.len()
                },
            }
        }),
{
    let ghost pred = |r: Review| r.is_visible;
    let nodes = &review_connection.nodes;
    let mut sum: u128 = 0;
    let mut count: u64 = 0;
    let mut i: usize = 0;
    while i < nodes.len()
        invariant
            i <= nodes@.len(),
            pred == (|r: Review| r.is_visible),
            count as int == nodes@.subrange(0, i as int).filter(pred).len(),
            sum as int == rating_sum(nodes@.subrange(0, i as int).filter(pred)),
            count <= i,
            sum <= 5 * (count as u128),
        decreases nodes@.len() - i,
    {
        proof {
            assert(nodes@.subrange(0, i + 1) =~= nodes@.subrange(0, i as int).push(
                nodes@[i as int],
            ));
            Seq::lemma_filter_push(nodes@.subrange(0, i as int), nodes@[i as int], pred);
            if pred(nodes@[i as int]) {
                lemma_rating_sum_push(nodes@.subrange(0, i as int).filter(pred), nodes@[i as int]);
            }
            Seq::lemma_filter_len(nodes@.subrange(0, i as int), pred);
        }
        if nodes[i].is_visible {
            sum = sum + nodes[i].rating.stars() as u128;
            count = count + 1;
        }
        i += 1;
    }
    proof {
        assert(nodes@.subrange(0, nodes@.len() as int) =~= nodes@);
    }
    if count == 0 {
        None
    } else {
        Some((sum, count))
    }
}

impl ProductVariant {
    /// Retrieves the reviews of this product variant as a bounded,
    /// ordered, counted page.
    pub fn reviews(
        &self,
        store: &ReviewStore,
        first: Option<u32>,
        skip: Option<u64>,
        order_by: Option<ReviewOrderInput>,
    ) -> (page: ReviewConnection)
        ensures
            ({
                let filtered = filtered_reviews(
                    store.reviews@,
                    ReviewFilter::ByProductVariant(self._id),
                );
                let sorted = sort_reviews(
                    filtered,
                    effective_field(order_by),
                    effective_direction(order_by),
                );
                let start = page_start(sorted.len() as int, skip_count(skip));
                let end = page_end(sorted.len() as int, start, first);
                &&& page.nodes@ == sorted.subrange(start, end)
                &&& page.total_count == filtered.len()
                &&& page.has_next_page == (skip_count(skip) + page.nodes@.len() < filtered.len())
            }),
    {
        paginate(&store.reviews, ReviewFilter::ByProductVariant(self._id), order_by, skip, first)
    }

    /// Retrieves the average rating of this product variant over its
    /// visible reviews, as a star sum and review count, or nothing when no
    /// visible review exists.
    pub fn average_rating(&self, store: &ReviewStore) -> (r: Option<(u128, u64)>)
        ensures
            ({
                let visible = visible_reviews(
                    default_page(store.reviews@, ReviewFilter::ByProductVariant(self._id)),
                );
                match r {
                    None => visible.len() == 0,
                    Some((sum, count)) => {
                        &&& visible.len() > 0
                        &&& sum as int == rating_sum(visible)
                        &&& count as int == visible.len()
                    },
                }
            }),
    {
        let page = self.reviews(store, None, None, None);
        proof {
            let sorted = default_page(store.reviews@, ReviewFilter::ByProductVariant(self._id));
            assert(sorted.subrange(0, sorted.len() as int) =~= sorted);
        }
        calculate_average_rating(&page)
    }
}

impl PartialOrd for ProductVariant {
    /// Orders product variants by their UUID.
    fn partial_cmp(&self, other: &Self) -> (r: Option<core::cmp::Ordering>) {
        if self._id.0 < other._id.0 {
            Some(core::cmp::Ordering::Less)
        } else if self._id.0 == other._id.0 {
            Some(core::cmp::Ordering::Equal)
        } else {
            Some(core::cmp::Ordering::Greater)
        }
    }
}

impl vstd::std_specs::cmp::PartialOrdSpecImpl for ProductVariant {
    open spec fn obeys_partial_cmp_spec() -> bool {
        true
    }

    open spec fn partial_cmp_spec(&self, other: &Self) -> Option<core::cmp::Ordering> {
        if self._id.0 < other._id.0 {
            Some(core::cmp::Ordering::Less)
        } else if self._id.0 == other._id.0 {
            Some(core::cmp::Ordering::Equal)
        } else {
            Some(core::cmp::Ordering::Greater)
        }
    }
}

} // verus!
