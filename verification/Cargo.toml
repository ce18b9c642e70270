[package]
name = "quickwit_control"
version = "0.1.0"
edition = "2021"
publish = false

[dependencies]
anyhow = "1"
byte-unit = { version = "4", default-features = false }
bytes = "1"
serde = { version = "1", features = ["derive"] }
serde_json = "1"
serde_qs = { version = "0.12", features = ["warp"] }
thiserror = "1"
tonic = { version = "0.9", default-features = false }
utoipa = "3"
warp = { version = "0.3", default-features = false }
