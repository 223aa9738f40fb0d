[package]
name = "dioxus_auth"
version = "0.1.0"
edition = "2021"
publish = false

[dependencies]
http = "1"
serde = { version = "1", features = ["derive"] }
serde_json = "1"
thiserror = "2"
parking_lot = "0.12"
rustc-hash = "2"
tokio = { version = "1", features = ["rt", "rt-multi-thread", "macros"] }
tower = { version = "0.5", default-features = false }
