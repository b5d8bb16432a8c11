[package]
name = "sqlz"
version = "0.1.0"
edition = "2021"
publish = false

[dependencies]
postgres = { version = "0.19", features = ["with-chrono-0_4", "with-uuid-1", "with-serde_json-1"] }
chrono = "0.4"
uuid = "1"
rust_decimal = { version = "1", features = ["db-postgres"] }
serde_json = "1"
bytes = "1"
