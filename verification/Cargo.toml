[package]
name = "gateway_core"
version = "0.1.0"
edition = "2021"
publish = false

[dependencies]
async-trait = "=0.1.92"
base64 = "=0.21.7"
byteorder = "=1.5.0"
config = { version = "=0.15.27", default-features = false }
exponential-backoff = "=1.2.1"
futures = "=0.3.34"
helium-crypto = "=0.11.0"
http = "=1.5.0"
prost = "=0.14.4"
rand = "=0.8.8"
rand_chacha = "=0.3.1"
semtech-udp = { version = "=0.10.9", features = ["server"] }
serde_json = "=1.0.154"
sha2 = "=0.10.9"
signature = "=2.2.0"
slog = "=2.8.2"
thiserror = "=1.0.69"
tokio = { version = "=1.54.1", features = ["macros", "rt-multi-thread", "sync", "time"] }
tokio-stream = "=0.1.19"
tonic = "=0.14.6"
triggered = "=0.1.3"
