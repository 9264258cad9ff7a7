[package]
name = "sd-api-server"
version = "0.1.0"
edition = "2021"
publish = false

[dependencies]
base64 = "=0.22.1"
chat-prompts = "=0.21.0"
clap = { version = "=4.6.7", features = ["derive"] }
endpoints = "=0.24.1"
hyper = { version = "=0.14.32", features = ["full"] }
llama-core = "=0.26.7"
log = "=0.4.34"
multipart-2021 = { version = "=0.19.0", default-features = false, features = ["server"] }
serde_json = "=1.0.154"
tokio = { version = "=1.54.1", features = ["io-util", "fs", "net", "time", "rt", "macros"] }
uuid = { version = "=1.29.0", features = ["v4"] }
