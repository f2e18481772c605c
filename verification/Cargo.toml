[package]
name = "paper_raid_bff"
version = "0.1.0"
edition = "2021"
publish = false

[dependencies]
sha2 = "0.10"
subtle = "2"
uuid = { version = "1", features = ["v4"] }
hex = "0.4"
base64 = "0.22"
chrono = "0.4"
serde = { version = "1", features = ["derive"] }
serde_json = "1"
url = "2"
ed25519-dalek = "2"
thiserror = "1"
axum = "0.7"
tokio = { version = "1", features = ["macros", "rt-multi-thread", "net"] }
tracing = "0.1"
tracing-subscriber = { version = "0.3", features = ["env-filter"] }
reqwest = { version = "0.12", default-features = false, features = ["json"] }
sqlx = { version = "0.8", default-features = false, features = ["postgres", "runtime-tokio", "chrono", "uuid"] }
