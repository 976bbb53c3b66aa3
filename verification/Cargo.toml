[package]
name = "riko"
version = "0.1.0"
edition = "2021"
publish = false

[dependencies]
regex = "=1.13.1"
syn = { version = "=1.0.109", features = ["full"] }
quote = "=1.0.47"
proc-macro2 = { version = "=1.0.107", features = ["span-locations"] }
serde = { version = "1", features = ["derive"] }
serde_cbor = "0.11"
