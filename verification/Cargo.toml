[package]
name = "aw_watcher_zed"
version = "0.1.0"
edition = "2021"
publish = false

[dependencies]
arc-swap = "1"
aw-client-rust = "*"
chrono = "0.4"
clap = "4"
lsp-server = "*"
lsp-types = "*"
serde = { version = "1", features = ["derive"] }
serde_json = "1"
zed_extension_api = "*"
