//! Review queries and entity resolvers.

use vstd::prelude::*;
use crate::order_datatypes::ReviewOrderInput;
use crate::pagination::{
    effective_direction, effective_field, filtered_reviews, page_end, page_start, paginate,
    skip_count, sort_reviews, ReviewFilter,
};
use crate::replica_store::ReplicaStore;
use crate::review::{Product, ProductVariant, Review, User, Uuid};
use crate::review_connection::ReviewConnection;
use crate::review_store::{has_review_id, review_index, ReviewStore};

verus! {

/// Describes review queries.
pub struct Query;

impl Query {
    /// Entity resolver for the user of a specific UUID.
    pub fn user_entity_resolver(&self, replica: &ReplicaStore, id: Uuid) -> (r: Option<User>)
        ensures
            r == if replica.user_ids().contains(id) {
                Some(User { _id: id })
            } else {
                None::<User>
            },
    {
        replica.get_user(id)
    }

    /// Entity resolver for the product of a specific UUID.
    pub fn product_entity_resolver(&self, replica: &ReplicaStore, id: Uuid) -> (r: Option<Product>)
        ensures
            r == if replica.product_ids().contains(id) {
                Some(Product { _id: id })
            } else {
                None::<Product>
            },
    {
        replica.get_product(id)
    }

    /// Entity resolver for the product variant of a specific UUID.
    pub fn product_variant_entity_resolver(&self, replica: &ReplicaStore, id: Uuid) -> (r: Option<
        ProductVariant,
    >)
        requires
            replica.wf(),
        ensures
            r == if replica.variant_ids().contains(id) {
                Some(replica.variant_stub(id))
            } else {
                None::<ProductVariant>
            },
    {
        replica.get_product_variant(id)
    }

    /// Retrieves all reviews as a bounded, ordered, counted page.
    pub fn reviews(
        &self,
        store: &ReviewStore,
        first: Option<u32>,
        skip: Option<u64>,
        order_by: Option<ReviewOrderInput>,
    ) -> (page: ReviewConnection)
        ensures
            ({
                let filtered = filtered_reviews(store.reviews@, ReviewFilter::All);
                let sorted = sort_reviews(
                    filtered,
                    effective_field(order_by),
                    effective_direction(order_by),
                );
                let start = page_start(sorted.len() as int, skip_count(skip));
                let end = page_end(sorted.len() as int, start, first);
                &&& page.nodes@ == sorted.subrange(start, end)
                &&& page.total_count == filtered.len()
                &&& page.has_next_page == (skip_count(skip) + page.nodes@.len() < filtered.len())
            }),
    {
        paginate(&store.reviews, ReviewFilter::All, order_by, skip, first)
    }

    /// Retrieves the review of a specific UUID.
    pub fn review(&self, store: &ReviewStore, id: Uuid) -> (r: Option<Review>)
        requires
            store.wf(),
        ensures
            match r {
                Some(rv) => has_review_id(store.reviews@, id) && rv == store.reviews@[review_index(
                    store.reviews@,
                    id,
                )] && rv._id == id,
                None => !has_review_id(store.reviews@, id),
            },
    {
        store.find_review(id)
    }
}

} // verus!
