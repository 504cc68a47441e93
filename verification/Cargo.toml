[package]
name = "libp2p_quic"
version = "0.1.0"
edition = "2021"
publish = false

[dependencies]
libp2p-core = "*"
libp2p-identity = { version = "*", features = ["ed25519", "peerid", "rand"] }
x509-signature = "*"
webpki = "*"
ring = "*"
untrusted = "*"
rustls = "*"
rcgen = "*"
quinn = "*"
protobuf = "2"
futures = "*"
tokio = "*"
ipnet = "*"
log = "*"
