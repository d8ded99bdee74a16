[package]
name = "substrate_padawan"
version = "0.1.0"
edition = "2021"
publish = false

[dependencies]
snow = "0.9"
libp2p-identity = { version = "0.2", features = ["ed25519", "peerid", "rand"] }
tokio = { version = "1", features = ["rt-multi-thread", "net", "io-util", "macros", "time"] }
clap = { version = "4", features = ["derive"] }
futures = "0.3"
