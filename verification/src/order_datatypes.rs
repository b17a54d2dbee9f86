//! Ordering parameters for review and foreign-entity queries.

use vstd::prelude::*;

verus! {

/// Direction of an ordering.
#[derive(Copy, Clone, Eq, PartialEq, Structural, Debug)]
pub enum OrderDirection {
    /// Ascending order direction.
    Asc,
    /// Descending order direction.
    Desc,
}

impl Default for OrderDirection {
    /// The default order direction is ascending.
    fn default() -> (r: Self)
        ensures
            r == OrderDirection::Asc,
    {
        Self::Asc
    }
}

/// Fields that a review can be ordered by.
#[derive(Copy, Clone, Eq, PartialEq, Structural, Debug)]
pub enum ReviewOrderField {
    /// Orders by "id".
    Id,
    /// Orders by "user_id".
    UserId,
    /// Orders by "product_variant".
    ProductVariant,
    /// Orders by "rating".
    Rating,
    /// Orders by "created_at".
    CreatedAt,
}

impl ReviewOrderField {
    /// The sortable key name of this field in the backing store.
    pub open spec fn key_name(self) -> Seq<char> {
        match self {
            ReviewOrderField::Id => "_id"@,
            ReviewOrderField::UserId => "user"@,
            ReviewOrderField::ProductVariant => "product_variant"@,
            ReviewOrderField::Rating => "rating"@,
            ReviewOrderField::CreatedAt => "last_updated_at"@,
        }
    }

    /// Translates the field to the backing store's sortable key name.
    pub fn as_str(&self) -> (r: &'static str)
        ensures
            r@ == self.key_name(),
    {
        match self {
            ReviewOrderField::Id => "_id",
            ReviewOrderField::UserId => "user",
            ReviewOrderField::ProductVariant => "product_variant",
            ReviewOrderField::Rating => "rating",
            ReviewOrderField::CreatedAt => "last_updated_at",
        }
    }
}

impl Default for ReviewOrderField {
    /// The default review order field is the review's id.
    fn default() -> (r: Self)
        ensures
            r == ReviewOrderField::Id,
    {
        Self::Id
    }
}

/// Specifies the order of reviews.
#[derive(Copy, Clone, Eq, PartialEq, Structural, Debug)]
pub struct ReviewOrderInput {
    /// Order direction of reviews.
    pub direction: Option<OrderDirection>,
    /// Field that reviews should be ordered by.
    pub field: Option<ReviewOrderField>,
}

impl Default for ReviewOrderInput {
    /// By default reviews are ordered by id, ascending.
    fn default() -> (r: Self)
        ensures
            r.direction == Some(OrderDirection::Asc),
            r.field == Some(ReviewOrderField::Id),
    {
        Self { direction: Some(OrderDirection::Asc), field: Some(ReviewOrderField::Id) }
    }
}

/// Fields that foreign types can be ordered by.
///
/// Only the id is valid at the moment.
#[derive(Copy, Clone, Eq, PartialEq, Structural, Debug)]
pub enum CommonOrderField {
    /// Orders by "id".
    Id,
}

impl CommonOrderField {
    /// The sortable key name of this field in the backing store.
    pub open spec fn key_name(self) -> Seq<char> {
        match self {
            CommonOrderField::Id => "_id"@,
        }
    }

    /// Translates the field to the backing store's sortable key name.
    pub fn as_str(&self) -> (r: &'static str)
        ensures
            r@ == self.key_name(),
    {
        match self {
            CommonOrderField::Id => "_id",
        }
    }
}

impl Default for CommonOrderField {
    /// The default common order field is the entity's id.
    fn default() -> (r: Self)
        ensures
            r == CommonOrderField::Id,
    {
        Self::Id
    }
}

/// Specifies the order of foreign types.
#[derive(Copy, Clone, Eq, PartialEq, Structural, Debug)]
pub struct CommonOrderInput {
    /// Order direction of foreign entities.
    pub direction: Option<OrderDirection>,
    /// Field that foreign entities should be ordered by.
    pub field: Option<CommonOrderField>,
}

impl Default for CommonOrderInput {
    /// By default foreign entities are ordered by id, ascending.
    fn default() -> (r: Self)
        ensures
            r.direction == Some(OrderDirection::Asc),
            r.field == Some(CommonOrderField::Id),
    {
        Self { direction: Some(OrderDirection::Asc), field: Some(CommonOrderField::Id) }
    }
}

impl OrderDirection {
    /// The sort-direction sign of this direction: ascending is `1`,
    /// descending is `-1`.
    pub open spec fn sign(self) -> int {
        match self {
            OrderDirection::Asc => 1,
            OrderDirection::Desc => -1,
        }
    }
}

/// Conversion to `i32` for document sorting: ascending maps to `1`,
/// descending to `-1`.
impl From<OrderDirection> for i32 {
    fn from(value: OrderDirection) -> (r: Self) {
        match value {
            OrderDirection::Asc => 1,
            OrderDirection::Desc => -1,
        }
    }
}

impl vstd::std_specs::convert::FromSpecImpl<OrderDirection> for i32 {
    open spec fn obeys_from_spec() -> bool {
        true
    }

    open spec fn from_spec(value: OrderDirection) -> Self {
        value.sign() as i32
    }
}

} // verus!
