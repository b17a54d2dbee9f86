use review::mutation::Mutation;
use review::mutation_input_structs::CreateReviewInput;
use review::order_datatypes::{OrderDirection, ReviewOrderField, ReviewOrderInput};
use review::query::Query;
use review::replica_store::ReplicaStore;
use review::review::{Rating, Uuid};
use review::review_store::ReviewStore;

/// Ten reviews about one product variant, written by users 1..=10, created
/// at times 1000, 2000, ... in shuffled insertion order.
fn ten_reviews() -> ReviewStore {
    let mut replica = ReplicaStore::new();
    replica.upsert_product_variant(Uuid(500), Uuid(900));
    for u in 1..=10u128 {
        replica.upsert_user(Uuid(u));
    }
    let mut store = ReviewStore::new();
    // rank = creation time order; insertion order is shuffled
    let ranks: [u128; 10] = [4, 9, 1, 7, 3, 10, 2, 8, 5, 6];
    for rank in ranks {
        let input = CreateReviewInput {
            user_id: Uuid(rank),
            product_variant_id: Uuid(500),
            body: format!("review {}", rank),
            rating: Rating::ThreeStars,
            is_visible: None,
        };
        Mutation
            .create_review(&replica, &mut store, input, Uuid(1000 + rank), 1000 * rank as i64)
            .unwrap();
    }
    store
}

#[test]
fn page_skip_three_first_four_by_creation_time() {
    let store = ten_reviews();
    let order = ReviewOrderInput {
        direction: Some(OrderDirection::Asc),
        field: Some(ReviewOrderField::CreatedAt),
    };
    let page = Query.reviews(&store, Some(4), Some(3), Some(order));
    assert_eq!(page.total_count, 10);
    assert!(page.has_next_page);
    assert_eq!(page.nodes.len(), 4);
    for (offset, node) in page.nodes.iter().enumerate() {
        // ranks 4..=7 by creation time
        assert_eq!(node.created_at, 1000 * (4 + offset as i64));
        assert_eq!(node.user._id, Uuid(4 + offset as u128));
    }
}

#[test]
fn last_page_has_no_next_page() {
    let store = ten_reviews();
    let order = ReviewOrderInput {
        direction: Some(OrderDirection::Asc),
        field: Some(ReviewOrderField::CreatedAt),
    };
    let page = Query.reviews(&store, Some(4), Some(6), Some(order));
    assert_eq!(page.nodes.len(), 4);
    assert_eq!(page.total_count, 10);
    assert!(!page.has_next_page);
}

#[test]
fn absent_order_defaults_to_id_ascending() {
    let store = ten_reviews();
    let page = Query.reviews(&store, None, None, None);
    assert_eq!(page.nodes.len(), 10);
    assert!(!page.has_next_page);
    for (offset, node) in page.nodes.iter().enumerate() {
        assert_eq!(node._id, Uuid(1001 + offset as u128));
    }
}

#[test]
fn descending_order_reverses_the_ranking() {
    let store = ten_reviews();
    let order = ReviewOrderInput {
        direction: Some(OrderDirection::Desc),
        field: Some(ReviewOrderField::CreatedAt),
    };
    let page = Query.reviews(&store, Some(2), None, Some(order));
    assert_eq!(page.nodes.len(), 2);
    assert!(page.has_next_page);
    assert_eq!(page.nodes[0].created_at, 10000);
    assert_eq!(page.nodes[1].created_at, 9000);
}

#[test]
fn skip_beyond_the_end_returns_an_empty_page() {
    let store = ten_reviews();
    let page = Query.reviews(&store, Some(4), Some(25), None);
    assert_eq!(page.nodes.len(), 0);
    assert_eq!(page.total_count, 10);
    assert!(!page.has_next_page);
}

#[test]
fn equal_sort_keys_keep_storage_order() {
    let store = ten_reviews();
    // every review has the same rating, so ordering by rating must keep
    // the storage (insertion) order
    let order = ReviewOrderInput {
        direction: Some(OrderDirection::Asc),
        field: Some(ReviewOrderField::Rating),
    };
    let page = Query.reviews(&store, None, None, Some(order));
    assert_eq!(page.nodes.len(), 10);
    let ranks: [u128; 10] = [4, 9, 1, 7, 3, 10, 2, 8, 5, 6];
    for (offset, node) in page.nodes.iter().enumerate() {
        assert_eq!(node.user._id, Uuid(ranks[offset]));
    }
}

#[test]
fn filters_select_by_user_variant_and_product() {
    let mut replica = ReplicaStore::new();
    replica.upsert_user(Uuid(1));
    replica.upsert_user(Uuid(2));
    replica.upsert_product_variant(Uuid(10), Uuid(100));
    replica.upsert_product_variant(Uuid(11), Uuid(100));
    replica.upsert_product_variant(Uuid(20), Uuid(200));
    let mut store = ReviewStore::new();
    let cases: [(u128, u128); 4] = [(1, 10), (1, 11), (2, 11), (2, 20)];
    let mut next_id: u128 = 1;
    for (u, v) in cases {
        let input = CreateReviewInput {
            user_id: Uuid(u),
            product_variant_id: Uuid(v),
            body: String::new(),
            rating: Rating::FourStars,
            is_visible: None,
        };
        Mutation.create_review(&replica, &mut store, input, Uuid(next_id), next_id as i64).unwrap();
        next_id += 1;
    }
    let user = review::review::User { _id: Uuid(1) };
    let by_user = user.reviews(&store, None, None, None);
    assert_eq!(by_user.total_count, 2);
    assert!(by_user.nodes.iter().all(|r| r.user._id == Uuid(1)));

    let variant = review::review::ProductVariant { _id: Uuid(11), product_id: Uuid(100) };
    let by_variant = variant.reviews(&store, None, None, None);
    assert_eq!(by_variant.total_count, 2);
    assert!(by_variant.nodes.iter().all(|r| r.product_variant._id == Uuid(11)));

    let product = review::review::Product { _id: Uuid(100) };
    let by_product = product.reviews(&store, None, None, None);
    assert_eq!(by_product.total_count, 3);
    assert!(by_product.nodes.iter().all(|r| r.product_variant.product_id == Uuid(100)));
}

#[test]
fn order_fields_translate_to_storage_key_names() {
    assert_eq!(ReviewOrderField::Id.as_str(), "_id");
    assert_eq!(ReviewOrderField::UserId.as_str(), "user");
    assert_eq!(ReviewOrderField::ProductVariant.as_str(), "product_variant");
    assert_eq!(ReviewOrderField::Rating.as_str(), "rating");
    assert_eq!(ReviewOrderField::CreatedAt.as_str(), "last_updated_at");
    assert_eq!(review::order_datatypes::CommonOrderField::Id.as_str(), "_id");
}

#[test]
fn order_directions_translate_to_signs() {
    assert_eq!(i32::from(OrderDirection::Asc), 1);
    assert_eq!(i32::from(OrderDirection::Desc), -1);
}

#[test]
fn order_inputs_default_to_id_ascending() {
    assert_eq!(OrderDirection::default(), OrderDirection::Asc);
    assert_eq!(ReviewOrderField::default(), ReviewOrderField::Id);
    let order = ReviewOrderInput::default();
    assert_eq!(order.direction, Some(OrderDirection::Asc));
    assert_eq!(order.field, Some(ReviewOrderField::Id));
    let common = review::order_datatypes::CommonOrderInput::default();
    assert_eq!(common.direction, Some(OrderDirection::Asc));
    assert_eq!(common.field, Some(review::order_datatypes::CommonOrderField::Id));
}

#[test]
fn rating_names_and_star_values() {
    assert_eq!(Rating::OneStars.to_string(), "OneStars");
    assert_eq!(Rating::TwoStars.to_string(), "TwoStars");
    assert_eq!(Rating::ThreeStars.to_string(), "ThreeStars");
    assert_eq!(Rating::FourStars.to_string(), "FourStarst");
    assert_eq!(Rating::FiveStars.to_string(), "FiveStars");
    assert_eq!(Rating::OneStars.stars(), 1);
    assert_eq!(Rating::FiveStars.stars(), 5);
}
