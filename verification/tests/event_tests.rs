use review::error::ReviewError;
use review::event_service::{
    list_topic_subscriptions, on_product_variant_creation_event, on_topic_event, Event, EventData,
    ProductVariantEventData, TopicEventResponse,
};
use review::replica_store::ReplicaStore;
use review::review::Uuid;

#[test]
fn topic_subscriptions_cover_the_three_creation_topics() {
    let subs = list_topic_subscriptions();
    assert_eq!(subs.len(), 3);
    assert_eq!(subs[0].pubsubname, "pubsub");
    assert_eq!(subs[0].topic, "user/user/created");
    assert_eq!(subs[0].route, "/on-topic-event");
    assert_eq!(subs[1].topic, "catalog/product/created");
    assert_eq!(subs[2].topic, "catalog/product-variant/created");
}

#[test]
fn topic_event_response_defaults_to_accepted() {
    let response = TopicEventResponse::default();
    assert_eq!(response.status, 0);
}

#[test]
fn user_created_event_applied_three_times_leaves_one_stub() {
    let mut store = ReplicaStore::new();
    for _ in 0..3 {
        let event = Event { topic: "user/user/created".to_string(), data: EventData { id: Uuid(7) } };
        let response = on_topic_event(&mut store, &event).unwrap();
        assert_eq!(response.status, 0);
    }
    assert_eq!(store.users.len(), 1);
    assert!(store.exists_user(Uuid(7)));
    assert_eq!(store.products.len(), 0);
    assert_eq!(store.product_variants.len(), 0);
}

#[test]
fn product_created_event_applied_twice_leaves_one_stub() {
    let mut store = ReplicaStore::new();
    for _ in 0..2 {
        let event =
            Event { topic: "catalog/product/created".to_string(), data: EventData { id: Uuid(9) } };
        on_topic_event(&mut store, &event).unwrap();
    }
    assert_eq!(store.products.len(), 1);
    assert!(store.exists_product(Uuid(9)));
}

#[test]
fn product_variant_created_event_is_idempotent_and_first_writer_wins() {
    let mut store = ReplicaStore::new();
    let event = Event {
        topic: "catalog/product-variant/created".to_string(),
        data: ProductVariantEventData { id: Uuid(5), product_id: Uuid(50) },
    };
    on_product_variant_creation_event(&mut store, &event).unwrap();
    let redelivery_with_other_owner = Event {
        topic: "catalog/product-variant/created".to_string(),
        data: ProductVariantEventData { id: Uuid(5), product_id: Uuid(99) },
    };
    on_product_variant_creation_event(&mut store, &redelivery_with_other_owner).unwrap();
    assert_eq!(store.product_variants.len(), 1);
    assert_eq!(store.product_variants[0]._id, Uuid(5));
    assert_eq!(store.product_variants[0].product_id, Uuid(50));
}

#[test]
fn unknown_topic_is_rejected_and_changes_nothing() {
    let mut store = ReplicaStore::new();
    let event = Event { topic: "user/user/deleted".to_string(), data: EventData { id: Uuid(7) } };
    let result = on_topic_event(&mut store, &event);
    assert_eq!(result, Err(ReviewError::UnknownTopic));
    assert_eq!(store.users.len(), 0);
    assert_eq!(store.products.len(), 0);
}

#[test]
fn variant_topic_is_unknown_to_the_plain_event_handler() {
    let mut store = ReplicaStore::new();
    let event = Event {
        topic: "catalog/product-variant/created".to_string(),
        data: EventData { id: Uuid(5) },
    };
    assert_eq!(on_topic_event(&mut store, &event), Err(ReviewError::UnknownTopic));
    let misrouted = Event {
        topic: "user/user/created".to_string(),
        data: ProductVariantEventData { id: Uuid(5), product_id: Uuid(50) },
    };
    assert_eq!(
        on_product_variant_creation_event(&mut store, &misrouted),
        Err(ReviewError::UnknownTopic)
    );
    assert_eq!(store.product_variants.len(), 0);
}
