[package]
name = "boo"
version = "0.1.0"
edition = "2021"
publish = false

[dependencies]
bytesize = "*"
clap = { version = "*", features = ["derive"] }
env_logger = "*"
flate2 = "*"
glob = "*"
owo-colors = "*"
reqwest = { version = "0.12", features = ["json", "multipart"] }
semver = "*"
serde = { version = "*", features = ["derive"] }
serde_json = "*"
tar = "*"
tokio = { version = "*", features = ["rt-multi-thread", "time"] }
urlencoding = "*"
virtual-filesystem = "*"
