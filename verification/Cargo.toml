[package]
name = "kojacoord_protocol"
version = "0.1.0"
edition = "2021"
publish = false

[dependencies]
bytes = "1"
uuid = "1"
thiserror = "1"
serde = { version = "1", features = ["derive"] }
serde_json = "1"
anyhow = "1"
