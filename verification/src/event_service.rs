//! Ingestion of domain events delivered over pub/sub.
//!
//! Events arrive at least once and possibly out of order; every handler
//! applies an idempotent insert-if-absent upsert into the replica store, so
//! redeliveries are harmless. A delivery with an unrecognized topic is
//! rejected so that the broker retries or dead-letters it by its own policy.

use vstd::prelude::*;
use crate::error::ReviewError;
use crate::replica_store::{upserted, ReplicaStore};
use crate::review::{Product, User, Uuid};

verus! {

/// Data describing one pub/sub subscription.
pub struct Pubsub {
    /// Name of the pub/sub component to subscribe through.
    pub pubsubname: String,
    /// Topic to subscribe to.
    pub topic: String,
    /// Route that deliveries on this topic are sent to.
    pub route: String,
}

/// Response returned to the delivery transport when receiving an event.
#[derive(Copy, Clone, Eq, PartialEq, Structural, Debug)]
pub struct TopicEventResponse {
    /// Delivery status; `0` means accepted.
    pub status: u8,
}

impl Default for TopicEventResponse {
    /// Default status is `0`: the delivery was accepted.
    fn default() -> (r: Self)
        ensures
            r.status == 0,
    {
        Self { status: 0 }
    }
}

/// Relevant part of an event wrapped in a cloud envelope.
pub struct Event<T> {
    /// Topic the event was published on.
    pub topic: String,
    /// Payload of the event.
    pub data: T,
}

/// Relevant part of a user or product creation event.
#[derive(Copy, Clone, Eq, PartialEq, Structural, Debug)]
pub struct EventData {
    /// UUID of the created entity.
    pub id: Uuid,
}

/// Relevant part of a product variant creation event.
#[derive(Copy, Clone, Eq, PartialEq, Structural, Debug)]
pub struct ProductVariantEventData {
    /// Product variant UUID.
    pub id: Uuid,
    /// Associated product UUID.
    pub product_id: Uuid,
}

/// Topic announcing that a user was created.
pub open spec fn user_created_topic() -> Seq<char> {
    "user/user/created"@
}

/// Topic announcing that a product was created.
pub open spec fn product_created_topic() -> Seq<char> {
    "catalog/product/created"@
}

/// Topic announcing that a product variant was created.
pub open spec fn product_variant_created_topic() -> Seq<char> {
    "catalog/product-variant/created"@
}

/// Lists the topic subscriptions this service requires from the delivery
/// transport: one per recognized creation topic.
pub fn list_topic_subscriptions() -> (r: Vec<Pubsub>)
    ensures
        r@.len() == 3,
        r@[0].pubsubname@ == "pubsub"@,
        r@[0].topic@ == user_created_topic(),
        r@[0].route@ == "/on-topic-event"@,
        r@[1].pubsubname@ == "pubsub"@,
        r@[1].topic@ == product_created_topic(),
        r@[1].route@ == "/on-topic-event"@,
        r@[2].pubsubname@ == "pubsub"@,
        r@[2].topic@ == product_variant_created_topic(),
        r@[2].route@ == "/on-topic-event"@,
{
    let pubsub_user = Pubsub {
        pubsubname: "pubsub".to_string(),
        topic: "user/user/created".to_string(),
        route: "/on-topic-event".to_string(),
    };
    let pubsub_product = Pubsub {
        pubsubname: "pubsub".to_string(),
        topic: "catalog/product/created".to_string(),
        route: "/on-topic-event".to_string(),
    };
    let pubsub_product_variant = Pubsub {
        pubsubname: "pubsub".to_string(),
        topic: "catalog/product-variant/created".to_string(),
        route: "/on-topic-event".to_string(),
    };
    let mut subscriptions = Vec::new();
    subscriptions.push(pubsub_user);
    subscriptions.push(pubsub_product);
    subscriptions.push(pubsub_product_variant);
    subscriptions
}

/// Handles a delivered user or product creation event: applies an
/// idempotent upsert of the created entity's stub into the replica store,
/// and rejects deliveries on any other topic as unknown.
pub fn on_topic_event(store: &mut ReplicaStore, event: &Event<EventData>) -> (r: Result<
    TopicEventResponse,
    ReviewError,
>)
    requires
        old(store).wf(),
    ensures
        final(store).wf(),
        event.topic@ == user_created_topic() ==> {
            &&& r == Ok::<TopicEventResponse, ReviewError>(TopicEventResponse { status: 0 })
            &&& final(store).users@ == upserted(old(store).users@, User { _id: event.data.id })
            &&& final(store).user_ids() == old(store).user_ids().insert(event.data.id)
            &&& final(store).products@ == old(store).products@
            &&& final(store).product_variants@ == old(store).product_variants@
        },
        event.topic@ == product_created_topic() ==> {
            &&& r == Ok::<TopicEventResponse, ReviewError>(TopicEventResponse { status: 0 })
            &&& final(store).products@ == upserted(
                old(store).products@,
                Product { _id: event.data.id },
            )
            &&& final(store).product_ids() == old(store).product_ids().insert(event.data.id)
            &&& final(store).users@ == old(store).users@
            &&& final(store).product_variants@ == old(store).product_variants@
        },
        event.topic@ != user_created_topic() && event.topic@ != product_created_topic() ==> {
            &&& r == Err::<TopicEventResponse, ReviewError>(ReviewError::UnknownTopic)
            &&& *final(store) == *old(store)
        },
{
    proof {
        reveal_strlit("user/user/created");
        reveal_strlit("catalog/product/created");
        assert(user_created_topic().len() == 17);
        assert(product_created_topic().len() == 23);
    }
    let user_topic: String = "user/user/created".to_string();
    let product_topic: String = "catalog/product/created".to_string();
    if event.topic == user_topic {
        store.upsert_user(event.data.id);
        Ok(TopicEventResponse::default())
    } else if event.topic == product_topic {
        store.upsert_product(event.data.id);
        Ok(TopicEventResponse::default())
    } else {
        Err(ReviewError::UnknownTopic)
    }
}

/// Handles a delivered product variant creation event: applies an
/// idempotent upsert of the variant's stub, carrying the owning product's
/// UUID, and rejects deliveries on any other topic as unknown.
pub fn on_product_variant_creation_event(
    store: &mut ReplicaStore,
    event: &Event<ProductVariantEventData>,
) -> (r: Result<TopicEventResponse, ReviewError>)
    requires
        old(store).wf(),
    ensures
        final(store).wf(),
        event.topic@ == product_variant_created_topic() ==> {
            &&& r == Ok::<TopicEventResponse, ReviewError>(TopicEventResponse { status: 0 })
            &&& final(store).product_variants@ == upserted(
                old(store).product_variants@,
                crate::review::ProductVariant {
                    _id: event.data.id,
                    product_id: event.data.product_id,
                },
            )
            &&& final(store).variant_ids() == old(store).variant_ids().insert(event.data.id)
            &&& final(store).users@ == old(store).users@
            &&& final(store).products@ == old(store).products@
        },
        event.topic@ != product_variant_created_topic() ==> {
            &&& r == Err::<TopicEventResponse, ReviewError>(ReviewError::UnknownTopic)
            &&& *final(store) == *old(store)
        },
{
    let variant_topic: String = "catalog/product-variant/created".to_string();
    if event.topic == variant_topic {
        store.upsert_product_variant(event.data.id, event.data.product_id);
        Ok(TopicEventResponse::default())
    } else {
        Err(ReviewError::UnknownTopic)
    }
}

} // verus!
