[package]
name = "turbo-zk-benchmark"
version = "0.1.0"
edition = "2021"
publish = false

[dependencies]
anyhow = "=1.0.104"
bellman = "=0.14.0"
bls12_381 = "=0.8.0"
bytes = "=1.12.1"
ff = "=0.13.1"
futures-util = "=0.3.34"
halo2_proofs = "=0.3.5"
plonky2 = "=1.0.2"
rand = "=0.8.8"
serde_json = "=1.0.154"
tokio = { version = "=1.54.1", features = ["full"] }
tokio-tungstenite = "=0.24.0"
url = "=2.5.8"
webrtc = "=0.17.2"
