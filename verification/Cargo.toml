[package]
name = "holo_rea"
version = "0.1.0"
edition = "2021"
publish = false

[dependencies]
hdk = { version = "=0.7.1", default-features = false }
serde = { version = "1", features = ["derive"] }
serde_derive = "1"
serde_json = "1"
