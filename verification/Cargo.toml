[package]
name = "taurus_api"
version = "0.1.0"
edition = "2021"
publish = false

[dependencies]
anyhow = "*"
base64 = "*"
log = "*"
quick-protobuf = "*"
reqwest = { version = "*", default-features = false, features = ["blocking", "json"] }
serde = { version = "*", features = ["derive"] }
serde-aux = "*"
serde_json = "*"
toml = "*"
