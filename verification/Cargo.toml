[package]
name = "safety_rules"
version = "0.1.0"
edition = "2021"
publish = false

[dependencies]
bcs = "=0.1.6"
diem-crypto = "=0.0.3"
diem-types = "=0.0.3"
serde = { version = "=1.0.229", features = ["derive"] }
