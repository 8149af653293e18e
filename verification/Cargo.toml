[package]
name = "hurl_parser"
version = "0.1.0"
edition = "2021"
publish = false

[dependencies]
tower-lsp = { version = "=0.20.0", features = ["proposed"] }
tokio = { version = "=1.54.1", features = ["io-std", "macros", "rt-multi-thread"] }
dashmap = "=6.2.1"
ropey = "=1.6.1"
serde_json = "=1.0.154"
env_logger = "=0.11.11"
log = "=0.4.35"
pico-args = "=0.5.0"
