[package]
name = "z_mpc"
version = "0.1.0"
edition = "2021"
publish = false

[dependencies]
k256 = "0.13"
p256 = "0.13"
curve25519-dalek = { version = "4", features = ["rand_core"] }
sha2 = "0.10"
rand = "0.8"
hex = "0.4"
serde = { version = "1", features = ["derive"] }
serde_json = "1"
thiserror = "1"
clap = { version = "4", features = ["derive"] }
tokio = { version = "1", features = ["full"] }
axum = "0.7"
tracing = "0.1"
tracing-subscriber = "0.3"
