[package]
name = "rendezvous"
version = "0.1.0"
edition = "2021"
publish = false

[dependencies]
libp2p-core = "*"
libp2p-identity = { version = "*", features = ["peerid"] }
libp2p-swarm = "*"
thiserror = "*"
void = "1"
