[package]
name = "bx402"
version = "0.1.0"
edition = "2021"
publish = false

[dependencies]
alloy-primitives = { version = "=1.7.3", default-features = false }
anyhow = "=1.0.104"
axum = { version = "=0.8.9", default-features = false, features = ["http1", "json", "query", "tokio"] }
base64 = "=0.22.1"
dotenvy = "=0.15.7"
mpp = { version = "=0.12.0", default-features = false }
prometheus-client = "=0.25.2"
serde_json = { version = "=1.0.154", features = ["float_roundtrip", "preserve_order", "raw_value"] }
tempo-primitives = { version = "=1.11.0", default-features = false }
tokio = { version = "=1.54.1", features = ["macros", "net", "rt-multi-thread", "time"] }
tracing = { version = "=0.1.44", default-features = false }
x402-chain-eip155 = { version = "=2.0.2", default-features = false, features = ["server"] }
x402-types = { version = "=2.0.2", default-features = false }

[dev-dependencies]
k256 = "=0.13.4"
