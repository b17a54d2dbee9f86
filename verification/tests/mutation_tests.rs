use review::error::{DuplicateReview, EntityKind, ReviewError};
use review::mutation::Mutation;
use review::mutation_input_structs::{CreateReviewInput, UpdateReviewInput};
use review::query::Query;
use review::replica_store::ReplicaStore;
use review::review::{Rating, Uuid};
use review::review_store::ReviewStore;

fn replica_with(users: &[u128], variants: &[(u128, u128)]) -> ReplicaStore {
    let mut replica = ReplicaStore::new();
    for u in users {
        replica.upsert_user(Uuid(*u));
    }
    for (v, p) in variants {
        replica.upsert_product_variant(Uuid(*v), Uuid(*p));
    }
    replica
}

fn create_input(user: u128, variant: u128, body: &str, rating: Rating) -> CreateReviewInput {
    CreateReviewInput {
        user_id: Uuid(user),
        product_variant_id: Uuid(variant),
        body: body.to_string(),
        rating,
        is_visible: None,
    }
}

#[test]
fn create_review_embeds_stubs_and_timestamps() {
    let replica = replica_with(&[1], &[(10, 100)]);
    let mut store = ReviewStore::new();
    let review = Mutation
        .create_review(
            &replica,
            &mut store,
            create_input(1, 10, "solid", Rating::FourStars),
            Uuid(77),
            1234,
        )
        .unwrap();
    assert_eq!(review._id, Uuid(77));
    assert_eq!(review.user._id, Uuid(1));
    assert_eq!(review.product_variant._id, Uuid(10));
    assert_eq!(review.product_variant.product_id, Uuid(100));
    assert_eq!(review.body, "solid");
    assert_eq!(review.rating, Rating::FourStars);
    assert_eq!(review.created_at, 1234);
    assert_eq!(review.last_updated_at, 1234);
    assert!(review.is_visible);
    assert_eq!(store.reviews.len(), 1);
}

#[test]
fn create_review_with_unknown_variant_fails_and_writes_nothing() {
    let replica = replica_with(&[1], &[]);
    let mut store = ReviewStore::new();
    let result = Mutation.create_review(
        &replica,
        &mut store,
        create_input(1, 10, "nope", Rating::OneStars),
        Uuid(77),
        1,
    );
    assert_eq!(result, Err(ReviewError::NotFound(EntityKind::ProductVariant, Uuid(10))));
    assert_eq!(store.reviews.len(), 0);
}

#[test]
fn create_review_with_unknown_user_fails_and_writes_nothing() {
    let replica = replica_with(&[], &[(10, 100)]);
    let mut store = ReviewStore::new();
    let result = Mutation.create_review(
        &replica,
        &mut store,
        create_input(1, 10, "nope", Rating::OneStars),
        Uuid(77),
        1,
    );
    assert_eq!(result, Err(ReviewError::NotFound(EntityKind::User, Uuid(1))));
    assert_eq!(store.reviews.len(), 0);
}

#[test]
fn duplicate_pair_creates_exactly_one_review() {
    let replica = replica_with(&[1], &[(10, 100)]);
    let mut store = ReviewStore::new();
    let first = Mutation.create_review(
        &replica,
        &mut store,
        create_input(1, 10, "first", Rating::FiveStars),
        Uuid(77),
        1,
    );
    let second = Mutation.create_review(
        &replica,
        &mut store,
        create_input(1, 10, "second", Rating::OneStars),
        Uuid(78),
        2,
    );
    assert!(first.is_ok());
    assert_eq!(
        second,
        Err(ReviewError::Conflict(DuplicateReview {
            user_id: Uuid(1),
            product_variant_id: Uuid(10),
        }))
    );
    assert_eq!(store.reviews.len(), 1);
    assert_eq!(store.reviews[0].body, "first");
}

#[test]
fn create_review_with_taken_id_fails_as_write_failure() {
    let replica = replica_with(&[1, 2], &[(10, 100)]);
    let mut store = ReviewStore::new();
    Mutation
        .create_review(&replica, &mut store, create_input(1, 10, "a", Rating::TwoStars), Uuid(77), 1)
        .unwrap();
    let result = Mutation.create_review(
        &replica,
        &mut store,
        create_input(2, 10, "b", Rating::TwoStars),
        Uuid(77),
        2,
    );
    assert_eq!(result, Err(ReviewError::WriteFailed));
    assert_eq!(store.reviews.len(), 1);
}

#[test]
fn create_review_honours_explicit_visibility() {
    let replica = replica_with(&[1], &[(10, 100)]);
    let mut store = ReviewStore::new();
    let mut input = create_input(1, 10, "hidden", Rating::ThreeStars);
    input.is_visible = Some(false);
    let review = Mutation.create_review(&replica, &mut store, input, Uuid(77), 1).unwrap();
    assert!(!review.is_visible);
}

#[test]
fn partial_update_changes_only_rating_and_timestamp() {
    let replica = replica_with(&[1], &[(10, 100)]);
    let mut store = ReviewStore::new();
    Mutation
        .create_review(
            &replica,
            &mut store,
            create_input(1, 10, "original body", Rating::FiveStars),
            Uuid(77),
            1000,
        )
        .unwrap();
    let updated = Mutation
        .update_review(
            &mut store,
            UpdateReviewInput {
                id: Uuid(77),
                body: None,
                rating: Some(Rating::ThreeStars),
                is_visible: None,
            },
            2000,
        )
        .unwrap();
    assert_eq!(updated.rating, Rating::ThreeStars);
    assert_eq!(updated.last_updated_at, 2000);
    assert_eq!(updated.body, "original body");
    assert!(updated.is_visible);
    assert_eq!(updated.created_at, 1000);
    assert_eq!(updated._id, Uuid(77));
    let stored = Query.review(&store, Uuid(77)).unwrap();
    assert_eq!(stored, updated);
}

#[test]
fn update_with_several_fields_shares_one_timestamp() {
    let replica = replica_with(&[1], &[(10, 100)]);
    let mut store = ReviewStore::new();
    Mutation
        .create_review(&replica, &mut store, create_input(1, 10, "old", Rating::OneStars), Uuid(7), 1)
        .unwrap();
    let updated = Mutation
        .update_review(
            &mut store,
            UpdateReviewInput {
                id: Uuid(7),
                body: Some("new".to_string()),
                rating: Some(Rating::TwoStars),
                is_visible: Some(false),
            },
            99,
        )
        .unwrap();
    assert_eq!(updated.body, "new");
    assert_eq!(updated.rating, Rating::TwoStars);
    assert!(!updated.is_visible);
    assert_eq!(updated.last_updated_at, 99);
    assert_eq!(updated.created_at, 1);
}

#[test]
fn update_touching_no_field_leaves_the_review_as_it_was() {
    let replica = replica_with(&[1], &[(10, 100)]);
    let mut store = ReviewStore::new();
    let created = Mutation
        .create_review(&replica, &mut store, create_input(1, 10, "same", Rating::OneStars), Uuid(7), 1)
        .unwrap();
    let updated = Mutation
        .update_review(
            &mut store,
            UpdateReviewInput { id: Uuid(7), body: None, rating: None, is_visible: None },
            99,
        )
        .unwrap();
    assert_eq!(updated, created);
    assert_eq!(updated.last_updated_at, 1);
}

#[test]
fn update_of_absent_review_reports_not_found() {
    let mut store = ReviewStore::new();
    let result = Mutation.update_review(
        &mut store,
        UpdateReviewInput { id: Uuid(7), body: None, rating: Some(Rating::OneStars), is_visible: None },
        99,
    );
    assert_eq!(result, Err(ReviewError::NotFound(EntityKind::Review, Uuid(7))));
}

#[test]
fn delete_review_removes_it_and_reports_absence_afterwards() {
    let replica = replica_with(&[1], &[(10, 100)]);
    let mut store = ReviewStore::new();
    Mutation
        .create_review(&replica, &mut store, create_input(1, 10, "bye", Rating::OneStars), Uuid(7), 1)
        .unwrap();
    assert_eq!(Mutation.delete_review(&mut store, Uuid(7)), Ok(true));
    assert_eq!(store.reviews.len(), 0);
    assert!(Query.review(&store, Uuid(7)).is_none());
    assert_eq!(
        Mutation.delete_review(&mut store, Uuid(7)),
        Err(ReviewError::NotFound(EntityKind::Review, Uuid(7)))
    );
}

#[test]
fn entity_resolvers_reflect_the_replica() {
    let mut replica = ReplicaStore::new();
    replica.upsert_user(Uuid(1));
    replica.upsert_product(Uuid(2));
    replica.upsert_product_variant(Uuid(3), Uuid(2));
    assert_eq!(Query.user_entity_resolver(&replica, Uuid(1)).unwrap()._id, Uuid(1));
    assert!(Query.user_entity_resolver(&replica, Uuid(9)).is_none());
    assert_eq!(Query.product_entity_resolver(&replica, Uuid(2)).unwrap()._id, Uuid(2));
    assert!(Query.product_entity_resolver(&replica, Uuid(9)).is_none());
    let variant = Query.product_variant_entity_resolver(&replica, Uuid(3)).unwrap();
    assert_eq!(variant._id, Uuid(3));
    assert_eq!(variant.product_id, Uuid(2));
    assert!(Query.product_variant_entity_resolver(&replica, Uuid(9)).is_none());
}
