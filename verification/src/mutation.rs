//! Review mutations.
//!
//! Every mutation validates before it writes: referenced foreign entities
//! must exist in the replica store and the per-user-per-variant uniqueness
//! rule must hold before a review is inserted. The caller supplies the
//! fresh review UUID and the current timestamp, which come from outside.

use vstd::prelude::*;
use crate::error::{DuplicateReview, EntityKind, ReviewError};
use crate::mutation_input_structs::{CreateReviewInput, UpdateReviewInput};
use crate::replica_store::ReplicaStore;
use crate::review::{Review, Timestamp, User, Uuid};
use crate::review_store::{has_pair, has_review_id, review_index, ReviewStore};

verus! {

/// The visibility a new review gets: visible unless the input says
/// otherwise.
pub open spec fn default_visibility(v: Option<bool>) -> bool {
    match v {
        None => true,
        Some(b) => b,
    }
}

/// The review that a successful create call inserts: a fresh UUID, the
/// denormalized user and product-variant stubs, and both timestamps set to
/// the time of the call.
pub open spec fn new_review(
    input: CreateReviewInput,
    stub: crate::review::ProductVariant,
    new_id: Uuid,
    now: Timestamp,
) -> Review {
    Review {
        _id: new_id,
        user: User { _id: input.user_id },
        product_variant: stub,
        body: input.body,
        rating: input.rating,
        created_at: now,
        last_updated_at: now,
        is_visible: default_visibility(input.is_visible),
    }
}

/// Whether the update input touches any field at all.
pub open spec fn touches_any_field(input: UpdateReviewInput) -> bool {
    input.body is Some || input.rating is Some || input.is_visible is Some
}

/// The review that a partial update leaves behind: fields present in the
/// input are replaced, fields absent are left untouched, and the
/// last-update timestamp is refreshed to the time of this call whenever
/// any field is present (all updated fields share that one timestamp).
pub open spec fn apply_update(r: Review, input: UpdateReviewInput, now: Timestamp) -> Review {
    Review {
        _id: r._id,
        user: r.user,
        product_variant: r.product_variant,
        body: match input.body {
            Some(b) => b,
            None => r.body,
        },
        rating: match input.rating {
            Some(x) => x,
            None => r.rating,
        },
        is_visible: match input.is_visible {
            Some(v) => v,
            None => r.is_visible,
        },
        created_at: r.created_at,
        last_updated_at: if touches_any_field(input) {
            now
        } else {
            r.last_updated_at
        },
    }
}

/// Describes review mutations.
pub struct Mutation;

impl Mutation {
    /// Adds a review for a user and a product variant with a content,
    /// rating and visibility.
    ///
    /// Validates, in this order, that the product variant exists in the
    /// replica store, that the user exists, and that the user has not
    /// already written a review for this variant; only then is the review
    /// inserted (validate-then-write). An insert whose fresh UUID is
    /// already taken fails as a write failure, as a duplicate-key insert
    /// would. The caller supplies the fresh UUID `new_id` and the current
    /// timestamp `now`.
    pub fn create_review(
        &self,
        replica: &ReplicaStore,
        store: &mut ReviewStore,
        input: CreateReviewInput,
        new_id: Uuid,
        now: Timestamp,
    ) -> (r: Result<Review, ReviewError>)
        requires
            replica.wf(),
            old(store).wf(),
        ensures
            final(store).wf(),
            !replica.variant_ids().contains(input.product_variant_id) ==> {
                &&& r == Err::<Review, ReviewError>(
                    ReviewError::NotFound(EntityKind::ProductVariant, input.product_variant_id),
                )
                &&& *final(store) == *old(store)
            },
            replica.variant_ids().contains(input.product_variant_id) && !replica.user_ids()
                .contains(input.user_id) ==> {
                &&& r == Err::<Review, ReviewError>(
                    ReviewError::NotFound(EntityKind::User, input.user_id),
                )
                &&& *final(store) == *old(store)
            },
            replica.variant_ids().contains(input.product_variant_id) && replica.user_ids()
                .contains(input.user_id) && has_pair(
                old(store).reviews@,
                input.user_id,
                input.product_variant_id,
            ) ==> {
                &&& r == Err::<Review, ReviewError>(
                    ReviewError::Conflict(
                        DuplicateReview {
                            user_id: input.user_id,
                            product_variant_id: input.product_variant_id,
                        },
                    ),
                )
                &&& *final(store) == *old(store)
            },
            replica.variant_ids().contains(input.product_variant_id) && replica.user_ids()
                .contains(input.user_id) && !has_pair(
                old(store).reviews@,
                input.user_id,
                input.product_variant_id,
            ) && has_review_id(old(store).reviews@, new_id) ==> {
                &&& r == Err::<Review, ReviewError>(ReviewError::WriteFailed)
                &&& *final(store) == *old(store)
            },
            replica.variant_ids().contains(input.product_variant_id) && replica.user_ids()
                .contains(input.user_id) && !has_pair(
                old(store).reviews@,
                input.user_id,
                input.product_variant_id,
            ) && !has_review_id(old(store).reviews@, new_id) ==> {
                let inserted = new_review(
                    input,
                    replica.variant_stub(input.product_variant_id),
                    new_id,
                    now,
                );
                &&& r == Ok::<Review, ReviewError>(inserted)
                &&& final(store).reviews@ == old(store).reviews@.push(inserted)
            },
    {
        let stub = match replica.get_product_variant(input.product_variant_id) {
            Some(s) => s,
            None => {
                return Err(
                    ReviewError::NotFound(EntityKind::ProductVariant, input.product_variant_id),
                );
            },
        };
        if !replica.exists_user(input.user_id) {
            return Err(ReviewError::NotFound(EntityKind::User, input.user_id));
        }
        if store.contains_pair(input.user_id, input.product_variant_id) {
            return Err(
                ReviewError::Conflict(
                    DuplicateReview {
                        user_id: input.user_id,
                        product_variant_id: input.product_variant_id,
                    },
                ),
            );
        }
        if store.contains_review(new_id) {
            return Err(ReviewError::WriteFailed);
        }
        let is_visible = match input.is_visible {
            Some(v) => v,
            None => true,
        };
        let review = Review {
            _id: new_id,
            user: User { _id: input.user_id },
            product_variant: stub,
            body: input.body,
            rating: input.rating,
            created_at: now,
            last_updated_at: now,
            is_visible,
        };
        let result = review.clone();
        let ghost prev = store.reviews@;
        store.reviews.push(review);
        proof {
            assert forall|i: int, j: int|
                0 <= i < j < store.reviews@.len() implies store.reviews@[i]._id
                != store.reviews@[j]._id && !(store.reviews@[i].user._id
                == store.reviews@[j].user._id && store.reviews@[i].product_variant._id
                == store.reviews@[j].product_variant._id) by {
                if j == prev.len() {
                    assert(store.reviews@[i] == prev[i]);
                    assert(!(prev[i]._id == new_id));
                    assert(!(prev[i].user._id == input.user_id && prev[i].product_variant._id
                        == input.product_variant_id));
                } else {
                    assert(store.reviews@[i] == prev[i]);
                    assert(store.reviews@[j] == prev[j]);
                }
            }
        }
        Ok(result)
    }

    /// Updates a specific review referenced with a UUID.
    ///
    /// Applies only the fields present in the input and refreshes the
    /// last-update timestamp to the time of this call when any field is
    /// present; fields absent in the input are left untouched. Fails with
    /// a not-found error if no review carries the UUID.
    pub fn update_review(&self, store: &mut ReviewStore, input: UpdateReviewInput, now: Timestamp) -> (r:
        Result<Review, ReviewError>)
        requires
            old(store).wf(),
        ensures
            final(store).wf(),
            !has_review_id(old(store).reviews@, input.id) ==> {
                &&& r == Err::<Review, ReviewError>(ReviewError::NotFound(EntityKind::Review, input.id))
                &&& *final(store) == *old(store)
            },
            has_review_id(old(store).reviews@, input.id) ==> {
                let i = review_index(old(store).reviews@, input.id);
                let updated = apply_update(old(store).reviews@[i], input, now);
                &&& final(store).reviews@ == old(store).reviews@.update(i, updated)
                &&& r == Ok::<Review, ReviewError>(updated)
            },
    {
        let i = match store.index_of(input.id) {
            Some(i) => i,
            None => {
                return Err(ReviewError::NotFound(EntityKind::Review, input.id));
            },
        };
        let existing = store.reviews[i].clone();
        let touched = input.body.is_some() || input.rating.is_some() || input.is_visible.is_some();
        let updated = Review {
            _id: existing._id,
            user: existing.user,
            product_variant: existing.product_variant,
            body: match input.body {
                Some(b) => b,
                None => existing.body,
            },
            rating: match input.rating {
                Some(x) => x,
                None => existing.rating,
            },
            is_visible: match input.is_visible {
                Some(v) => v,
                None => existing.is_visible,
            },
            created_at: existing.created_at,
            last_updated_at: if touched {
                now
            } else {
                existing.last_updated_at
            },
        };
        let result = updated.clone();
        let ghost prev = store.reviews@;
        store.reviews[i] = updated;
        proof {
            assert forall|a: int, b: int|
                0 <= a < b < store.reviews@.len() implies store.reviews@[a]._id
                != store.reviews@[b]._id && !(store.reviews@[a].user._id
                == store.reviews@[b].user._id && store.reviews@[a].product_variant._id
                == store.reviews@[b].product_variant._id) by {
                assert(store.reviews@[a]._id == prev[a]._id);
                assert(store.reviews@[b]._id == prev[b]._id);
                assert(store.reviews@[a].user == prev[a].user);
                assert(store.reviews@[b].user == prev[b].user);
                assert(store.reviews@[a].product_variant == prev[a].product_variant);
                assert(store.reviews@[b].product_variant == prev[b].product_variant);
            }
        }
        Ok(result)
    }

    /// Deletes the review of the given UUID.
    ///
    /// Fails with a not-found error if no review carries the UUID;
    /// otherwise removes the review, keeping the storage order of the
    /// rest, and reports success.
    pub fn delete_review(&self, store: &mut ReviewStore, id: Uuid) -> (r: Result<bool, ReviewError>)
        requires
            old(store).wf(),
        ensures
            final(store).wf(),
            !has_review_id(old(store).reviews@, id) ==> {
                &&& r == Err::<bool, ReviewError>(ReviewError::NotFound(EntityKind::Review, id))
                &&& *final(store) == *old(store)
            },
            has_review_id(old(store).reviews@, id) ==> {
                &&& r == Ok::<bool, ReviewError>(true)
                &&& final(store).reviews@ == old(store).reviews@.remove(
                    review_index(old(store).reviews@, id),
                )
            },
    {
        let i = match store.index_of(id) {
            Some(i) => i,
            None => {
                return Err(ReviewError::NotFound(EntityKind::Review, id));
            },
        };
        let ghost prev = store.reviews@;
        store.reviews.remove(i);
        proof {
            assert forall|a: int, b: int|
                0 <= a < b < store.reviews@.len() implies store.reviews@[a]._id
                != store.reviews@[b]._id && !(store.reviews@[a].user._id
                == store.reviews@[b].user._id && store.reviews@[a].product_variant._id
                == store.reviews@[b].product_variant._id) by {
                let pa: int = if a < i { a } else { a + 1 };
                let pb: int = if b < i { b } else { b + 1 };
                assert(store.reviews@[a] == prev[pa]);
                assert(store.reviews@[b] == prev[pb]);
            }
        }
        Ok(true)
    }
}

/// Law: two create calls with an identical (user, product variant) pair
/// cannot both succeed. Once a successful call has inserted its review,
/// the store contains the pair, so the uniqueness check of any later
/// create call with the same pair reports a duplicate-review conflict.
pub proof fn lemma_unique_review_per_user_and_variant(s: Seq<Review>, rv: Review)
    ensures
        has_pair(s.push(rv), rv.user._id, rv.product_variant._id),
{
    assert(s.push(rv)[s.len() as int] == rv);
}

/// Law: a partial update replaces exactly the fields present in the input
/// and the last-update timestamp; the review's identity, its embedded
/// stubs, its creation time, and every field absent from the input are
/// left untouched. An update that touches no field leaves the review
/// exactly as it was.
pub proof fn lemma_partial_update_untouched(r: Review, input: UpdateReviewInput, now: Timestamp)
    ensures
        apply_update(r, input, now)._id == r._id,
        apply_update(r, input, now).user == r.user,
        apply_update(r, input, now).product_variant == r.product_variant,
        apply_update(r, input, now).created_at == r.created_at,
        input.body is None ==> apply_update(r, input, now).body == r.body,
        input.rating is None ==> apply_update(r, input, now).rating == r.rating,
        input.is_visible is None ==> apply_update(r, input, now).is_visible == r.is_visible,
        touches_any_field(input) ==> apply_update(r, input, now).last_updated_at == now,
        !touches_any_field(input) ==> apply_update(r, input, now) == r,
{
}

} // verus!
