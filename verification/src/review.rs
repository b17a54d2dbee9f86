//! The review entity and the foreign-entity stubs it embeds.
//!
//! A review denormalizes copies of its user and product-variant stubs at
//! creation time; the copies are value snapshots, not live references.

use vstd::prelude::*;

verus! {

/// A stable 128-bit identifier for an entity.
#[derive(Copy, Clone, Eq, PartialEq, Structural, Hash, Debug)]
pub struct Uuid(pub u128);

/// Point in time, in milliseconds since the epoch.
pub type Timestamp = i64;

/// Rating of a review, in 1-5 stars.
#[derive(Copy, Clone, Eq, PartialEq, Structural, Hash, Debug)]
pub enum Rating {
    OneStars,
    TwoStars,
    ThreeStars,
    FourStars,
    FiveStars,
}

impl Rating {
    /// The number of stars this rating stands for.
    pub open spec fn spec_stars(self) -> int {
        match self {
            Rating::OneStars => 1,
            Rating::TwoStars => 2,
            Rating::ThreeStars => 3,
            Rating::FourStars => 4,
            Rating::FiveStars => 5,
        }
    }

    /// The number of stars this rating stands for.
    pub fn stars(&self) -> (n: u32)
        ensures
            n as int == self.spec_stars(),
            1 <= n <= 5,
    {
        match self {
            Rating::OneStars => 1,
            Rating::TwoStars => 2,
            Rating::ThreeStars => 3,
            Rating::FourStars => 4,
            Rating::FiveStars => 5,
        }
    }

    /// The name of this rating's variant.
    pub open spec fn name(self) -> Seq<char> {
        match self {
            Rating::OneStars => "OneStars"@,
            Rating::TwoStars => "TwoStars"@,
            Rating::ThreeStars => "ThreeStars"@,
            Rating::FourStars => "FourStarst"@,
            Rating::FiveStars => "FiveStars"@,
        }
    }

    /// Converts enum value to string.
    pub fn to_string(&self) -> (r: String)
        ensures
            r@ == self.name(),
    {
        match self {
            Rating::OneStars => "OneStars".to_string(),
            Rating::TwoStars => "TwoStars".to_string(),
            Rating::ThreeStars => "ThreeStars".to_string(),
            Rating::FourStars => "FourStarst".to_string(),
            Rating::FiveStars => "FiveStars".to_string(),
        }
    }
}

/// Stub of a user owning reviews: a minimal existence marker replicated
/// from the owning service.
#[derive(Copy, Clone, Eq, PartialEq, Structural, Hash, Debug)]
pub struct User {
    /// UUID of the user.
    pub _id: Uuid,
}

impl From<Uuid> for User {
    fn from(value: Uuid) -> (r: Self) {
        User { _id: value }
    }
}

impl vstd::std_specs::convert::FromSpecImpl<Uuid> for User {
    open spec fn obeys_from_spec() -> bool {
        true
    }

    open spec fn from_spec(value: Uuid) -> Self {
        User { _id: value }
    }
}

/// Stub of a product: a minimal existence marker replicated from the
/// owning service.
#[derive(Copy, Clone, Eq, PartialEq, Structural, Hash, Debug)]
pub struct Product {
    /// UUID of the product.
    pub _id: Uuid,
}

impl From<Uuid> for Product {
    fn from(value: Uuid) -> (r: Self) {
        Product { _id: value }
    }
}

impl vstd::std_specs::convert::FromSpecImpl<Uuid> for Product {
    open spec fn obeys_from_spec() -> bool {
        true
    }

    open spec fn from_spec(value: Uuid) -> Self {
        Product { _id: value }
    }
}

/// Stub of a product variant: an existence marker that also carries the
/// UUID of the owning product.
#[derive(Copy, Clone, Eq, PartialEq, Structural, Hash, Debug)]
pub struct ProductVariant {
    /// UUID of the product variant.
    pub _id: Uuid,
    /// UUID of the owning product.
    pub product_id: Uuid,
}

/// The review of a user.
#[derive(PartialEq, Debug)]
pub struct Review {
    /// Review UUID.
    pub _id: Uuid,
    /// User that wrote the review, embedded at creation time.
    pub user: User,
    /// Product variant that the review is about, embedded at creation time.
    pub product_variant: ProductVariant,
    /// Body of the review.
    pub body: String,
    /// Rating of the review in 1-5 stars.
    pub rating: Rating,
    /// Timestamp when the review was created.
    pub created_at: Timestamp,
    /// Timestamp when the review was last updated.
    pub last_updated_at: Timestamp,
    /// Flag if the review is visible.
    pub is_visible: bool,
}

impl Clone for Review {
    /// Clones the review, field for field.
    fn clone(&self) -> (r: Self)
        ensures
            r == *self,
    {
        Review {
            _id: self._id,
            user: self.user,
            product_variant: self.product_variant,
            body: self.body.clone(),
            rating: self.rating,
            created_at: self.created_at,
            last_updated_at: self.last_updated_at,
            is_visible: self.is_visible,
        }
    }
}

} // verus!
