[package]
name = "d1_binder"
version = "0.1.0"
edition = "2021"
publish = false

[dependencies]
sea-query = { version = "=1.0.0-rc.32", default-features = false, features = ["thread-safe", "with-json", "with-chrono", "with-time", "with-uuid", "with-rust_decimal", "with-bigdecimal", "postgres-array", "postgres-vector", "with-ipnetwork", "with-mac_address"] }
sqlx = { version = "=0.8.6", default-features = false, features = ["json"] }
sqlx-d1 = { version = "=0.4.3", features = ["json", "uuid", "chrono", "decimal"] }

[dev-dependencies]
time = { version = "=0.3.55", features = ["parsing"] }
