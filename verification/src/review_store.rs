//! The review collection.
//!
//! Reviews are kept in storage order; the store's invariant is that review
//! UUIDs are unique and that each (user, product variant) pair occurs at
//! most once.

use vstd::prelude::*;
use crate::review::{Review, Uuid};

verus! {

/// Whether `s` holds a review with identifier `id`.
pub open spec fn has_review_id(s: Seq<Review>, id: Uuid) -> bool {
    exists|i: int| 0 <= i < s.len() && s[i]._id == id
}

/// Whether `s` holds a review written by `user_id` about
/// `product_variant_id`.
pub open spec fn has_pair(s: Seq<Review>, user_id: Uuid, product_variant_id: Uuid) -> bool {
    exists|i: int|
        0 <= i < s.len() && s[i].user._id == user_id && s[i].product_variant._id
            == product_variant_id
}

/// The index of the review with identifier `id` in `s`.
pub open spec fn review_index(s: Seq<Review>, id: Uuid) -> int {
    choose|i: int| 0 <= i < s.len() && s[i]._id == id
}

/// The collection of reviews, in storage order.
pub struct ReviewStore {
    /// The stored reviews.
    pub reviews: Vec<Review>,
}

impl ReviewStore {
    /// Review identifiers are unique, and each user reviews each product
    /// variant at most once.
    pub open spec fn wf(self) -> bool {
        &&& forall|i: int, j: int|
            0 <= i < j < self.reviews@.len() ==> self.reviews@[i]._id != self.reviews@[j]._id
        &&& forall|i: int, j: int|
            0 <= i < j < self.reviews@.len() ==> !(self.reviews@[i].user._id
                == self.reviews@[j].user._id && self.reviews@[i].product_variant._id
                == self.reviews@[j].product_variant._id)
    }

    /// Creates an empty review store.
    pub fn new() -> (r: Self)
        ensures
            r.wf(),
            r.reviews@.len() == 0,
    {
        ReviewStore { reviews: Vec::new() }
    }

    /// The position of the review with identifier `id`, if present.
    pub fn index_of(&self, id: Uuid) -> (r: Option<usize>)
        requires
            self.wf(),
        ensures
            match r {
                Some(i) => has_review_id(self.reviews@, id) && i as int == review_index(
                    self.reviews@,
                    id,
                ) && i < self.reviews@.len() && self.reviews@[i as int]._id == id,
                None => !has_review_id(self.reviews@, id),
            },
    {
        let mut i: usize = 0;
        while i < self.reviews.len()
            invariant
                self.wf(),
                i <= self.reviews@.len(),
                forall|k: int| 0 <= k < i ==> self.reviews@[k]._id != id,
            decreases self.reviews@.len() - i,
        {
            if self.reviews[i]._id == id {
                proof {
                    assert(has_review_id(self.reviews@, id));
                    let j = review_index(self.reviews@, id);
                    assert(self.reviews@[j]._id == id);
                    assert(j == i as int);
                }
                return Some(i);
            }
            i += 1;
        }
        None
    }

    /// Whether a review with identifier `id` is stored.
    pub fn contains_review(&self, id: Uuid) -> (r: bool)
        requires
            self.wf(),
        ensures
            r == has_review_id(self.reviews@, id),
    {
        self.index_of(id).is_some()
    }

    /// Whether the user has already written a review about the product
    /// variant.
    pub fn contains_pair(&self, user_id: Uuid, product_variant_id: Uuid) -> (r: bool)
        ensures
            r == has_pair(self.reviews@, user_id, product_variant_id),
    {
        let mut i: usize = 0;
        while i < self.reviews.len()
            invariant
                i <= self.reviews@.len(),
                forall|k: int|
                    0 <= k < i ==> !(self.reviews@[k].user._id == user_id
                        && self.reviews@[k].product_variant._id == product_variant_id),
            decreases self.reviews@.len() - i,
        {
            if self.reviews[i].user._id == user_id && self.reviews[i].product_variant._id
                == product_variant_id {
                proof {
                    assert(self.reviews@[i as int].user._id == user_id);
                }
                return true;
            }
            i += 1;
        }
        false
    }

    /// Returns a copy of the review with identifier `id`, if present.
    pub fn find_review(&self, id: Uuid) -> (r: Option<Review>)
        requires
            self.wf(),
        ensures
            match r {
                Some(rv) => has_review_id(self.reviews@, id) && rv == self.reviews@[review_index(
                    self.reviews@,
                    id,
                )] && rv._id == id,
                None => !has_review_id(self.reviews@, id),
            },
    {
        match self.index_of(id) {
            Some(i) => Some(self.reviews[i].clone()),
            None => None,
        }
    }
}

} // verus!
