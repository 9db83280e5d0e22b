[package]
name = "item_store"
version = "0.1.0"
edition = "2021"
publish = false

[dependencies]
actix-files = "0.6"
actix-web = "4"
chrono = { version = "0.4", features = ["serde"] }
diesel = { version = "2", features = ["sqlite", "r2d2", "chrono", "returning_clauses_for_sqlite_3_35"] }
diesel_migrations = { version = "2", features = ["sqlite"] }
dotenvy = "0.15"
env_logger = "0.11"
serde = { version = "1", features = ["derive"] }
serde_json = "1"
tracing = "0.1"
utoipa = { version = "*", features = ["actix_extras", "chrono"] }
utoipa-swagger-ui = { version = "*", features = ["actix-web", "vendored"] }
