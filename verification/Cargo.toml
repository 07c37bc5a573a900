[package]
name = "mempoolcp"
version = "0.3.0"
edition = "2021"
publish = false

[dependencies]
anyhow = "1"
bitcoincore-rpc = "0.17"
clap = { version = "4", features = ["derive"] }
confy = "0.5"
hex = "0.4"
indicatif = { version = "0.17", features = ["rayon"] }
rayon = "1"
rpassword = "7"
serde = { version = "1", features = ["derive"] }
url = { version = "2", features = ["serde"] }
zmq = "0.10"
