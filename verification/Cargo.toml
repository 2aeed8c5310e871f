[package]
name = "botkit"
version = "0.1.0"
edition = "2021"
publish = false

[dependencies]
pulldown-cmark = { version = "0.13", default-features = false }
mime_guess = "2"
base64 = "0.22"
rustls = { version = "0.23", default-features = false, features = ["ring", "std"] }
serde = { version = "1", features = ["derive"] }
serde_json = "1"
thiserror = "2"
async-channel = "2"
async-io = "2"
futures-lite = "2"
async-fs = "2"
executor-core = "*"
zenwave = "*"
http-kit = "*"
tracing = "0.1"
