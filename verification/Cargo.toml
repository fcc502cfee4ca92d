[package]
name = "http_lsp"
version = "0.1.0"
edition = "2021"
publish = false

[dependencies]
dashmap = "=6.2.1"
reqwest = "=0.12.28"
serde_json = "1"
tokio = { version = "1", features = ["full"] }
tower-lsp = "0.20"
urlencoding = "=2.1.3"
zed_extension_api = "0.7"
