//! A review service core: a local replica of foreign entities (users,
//! products, product variants) kept consistent under at-least-once event
//! delivery, and a cursor-pagination query engine over reviews with
//! derived aggregates (average rating) and integrity rules (referential
//! existence, per-user-per-variant uniqueness).

pub mod error;
pub mod event_service;
pub mod mutation;
pub mod mutation_input_structs;
pub mod order_datatypes;
pub mod pagination;
pub mod product;
pub mod product_variant;
pub mod query;
pub mod replica_store;
pub mod review;
pub mod review_connection;
pub mod review_store;
pub mod user;
