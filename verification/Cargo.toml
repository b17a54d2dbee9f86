[package]
name = "review"
version = "0.1.0"
edition = "2021"
publish = false

[dependencies]
async-graphql = { version = "=7.2.1", features = ["bson", "chrono"] }
async-graphql-axum = "=7.2.1"
axum = "=0.8.9"
bson = "=2.15.0"
clap = { version = "=4.6.7", features = ["derive"] }
log = "=0.4.34"
mongodb = "=3.9.1"
serde = { version = "=1.0.229", features = ["derive"] }
simple_logger = "=5.2.0"
tokio = { version = "=1.53.2", features = ["macros", "rt-multi-thread"] }
