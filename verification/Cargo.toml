[package]
name = "fossology"
version = "0.1.0"
edition = "2021"
publish = false

[dependencies]
chrono = { version = "0.4", default-features = false, features = ["std", "serde"] }
hex = "0.4"
reqwest = { version = "0.11", default-features = false, features = ["blocking", "json", "multipart"] }
serde = { version = "1", features = ["derive"] }
serde_json = "1"
sha2 = "0.10"
thiserror = "1"
version-compare = "0.0"

[dev-dependencies]
rand = "0.8"
