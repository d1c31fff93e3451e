[package]
name = "memecycle"
version = "0.1.0"
edition = "2021"
publish = false

[dependencies]
uuid = { version = "=1.29.0", features = ["v4"] }
fitparser = "=0.11.0"
rocket = { version = "=0.5.2", features = ["json"] }
rocket_sync_db_pools = { version = "=0.1.0", features = ["diesel_postgres_pool"] }
diesel = { version = "=2.3.14", features = ["postgres", "chrono"] }
chrono = { version = "=0.4.45", features = ["serde"] }
dotenvy = "=0.15.7"

[dev-dependencies]
serde_json = "=1.0.154"
