[package]
name = "gbp_stack"
version = "0.1.0"
edition = "2021"
publish = false

[dependencies]
chacha20poly1305 = "=0.10.1"
sha2 = "=0.10.9"
ciborium = "=0.2.2"
sframe = "=2.1.0"
serde = { version = "=1.0.229", features = ["derive"] }
serde_bytes = "=0.11.19"
serde_json = "=1.0.154"
prost = "=0.14.4"
thiserror = "=2.0.21"
anyhow = "=1.0.104"
tokio = { version = "=1.54.1", features = ["net", "io-util", "rt-multi-thread", "macros"] }
tracing = "=0.1.44"
tracing-subscriber = { version = "=0.3.23", features = ["env-filter"] }
openmls = "=0.9.2"
openmls_rust_crypto = "=0.6.0"
openmls_basic_credential = "=0.6.0"
quinn = { version = "=0.11.12", default-features = false, features = ["runtime-tokio", "rustls-ring", "log"] }
rustls = { version = "=0.23.46", default-features = false, features = ["ring", "std"] }
