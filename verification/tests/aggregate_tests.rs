use review::mutation::Mutation;
use review::mutation_input_structs::CreateReviewInput;
use review::product_variant::calculate_average_rating;
use review::replica_store::ReplicaStore;
use review::review::{ProductVariant, Rating, Review, User, Uuid};
use review::review_connection::ReviewConnection;
use review::review_store::ReviewStore;

fn sample_review(id: u128, rating: Rating, is_visible: bool) -> Review {
    Review {
        _id: Uuid(id),
        user: User { _id: Uuid(id) },
        product_variant: ProductVariant { _id: Uuid(500), product_id: Uuid(900) },
        body: String::new(),
        rating,
        created_at: id as i64,
        last_updated_at: id as i64,
        is_visible,
    }
}

#[test]
fn average_rating_excludes_invisible_reviews() {
    let connection = ReviewConnection {
        nodes: vec![
            sample_review(1, Rating::FiveStars, true),
            sample_review(2, Rating::FiveStars, true),
            sample_review(3, Rating::OneStars, false),
        ],
        has_next_page: false,
        total_count: 3,
    };
    let (sum, count) = calculate_average_rating(&connection).unwrap();
    assert_eq!((sum, count), (10, 2));
    let average = sum as f32 / count as f32;
    assert_eq!(average, 5.0);
}

#[test]
fn average_rating_of_no_visible_reviews_is_none() {
    let empty = ReviewConnection { nodes: vec![], has_next_page: false, total_count: 0 };
    assert_eq!(calculate_average_rating(&empty), None);
    let all_hidden = ReviewConnection {
        nodes: vec![sample_review(1, Rating::FiveStars, false)],
        has_next_page: false,
        total_count: 1,
    };
    assert_eq!(calculate_average_rating(&all_hidden), None);
}

#[test]
fn average_rating_is_a_plain_mean_of_star_values() {
    let connection = ReviewConnection {
        nodes: vec![
            sample_review(1, Rating::TwoStars, true),
            sample_review(2, Rating::ThreeStars, true),
        ],
        has_next_page: false,
        total_count: 2,
    };
    let (sum, count) = calculate_average_rating(&connection).unwrap();
    assert_eq!((sum, count), (5, 2));
    assert_eq!(sum as f32 / count as f32, 2.5);
}

#[test]
fn variant_average_rating_covers_its_visible_reviews() {
    let mut replica = ReplicaStore::new();
    replica.upsert_product_variant(Uuid(500), Uuid(900));
    for u in 1..=3u128 {
        replica.upsert_user(Uuid(u));
    }
    let mut store = ReviewStore::new();
    let cases: [(u128, Rating, Option<bool>); 3] = [
        (1, Rating::FiveStars, None),
        (2, Rating::FiveStars, Some(true)),
        (3, Rating::OneStars, Some(false)),
    ];
    for (u, rating, is_visible) in cases {
        let input = CreateReviewInput {
            user_id: Uuid(u),
            product_variant_id: Uuid(500),
            body: String::new(),
            rating,
            is_visible,
        };
        Mutation.create_review(&replica, &mut store, input, Uuid(100 + u), u as i64).unwrap();
    }
    let variant = ProductVariant { _id: Uuid(500), product_id: Uuid(900) };
    assert_eq!(variant.average_rating(&store), Some((10, 2)));
    let product = review::review::Product { _id: Uuid(900) };
    assert_eq!(product.average_rating(&store), Some((10, 2)));
}

#[test]
fn variant_without_reviews_has_no_average_rating() {
    let store = ReviewStore::new();
    let variant = ProductVariant { _id: Uuid(500), product_id: Uuid(900) };
    assert_eq!(variant.average_rating(&store), None);
    let product = review::review::Product { _id: Uuid(900) };
    assert_eq!(product.average_rating(&store), None);
}
