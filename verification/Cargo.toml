[package]
name = "node_web_audio_api"
version = "0.1.0"
edition = "2021"
publish = false

[dependencies]
uuid = { version = "=1.27.0", features = ["v4"] }
web-audio-api = { version = "=1.7.0", default-features = false }
napi = { version = "=3.14.2", features = ["napi9", "tokio_rt", "compat-mode"] }
napi-derive = { version = "=3.6.12", features = ["compat-mode"] }
mimalloc = "=0.1.52"
