[package]
name = "lora_ratchet"
version = "0.1.0"
edition = "2021"
publish = false

[dependencies]
rand = "=0.8.8"
rand_core = { version = "=0.6.4", features = ["getrandom"] }
rppal = { version = "=0.14.1", features = ["hal"] }
serde = { version = "=1.0.229", features = ["derive"] }
serde_json = "=1.0.154"
sx127x_lora = "=0.3.1"
x25519-dalek-ng = "=1.1.1"
