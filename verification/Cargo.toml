[package]
name = "pi-coding"
version = "0.1.0"
edition = "2021"
publish = false

[dependencies]
anyhow = "1"
async-trait = "0.1"
futures-util = "0.3"
lsp-types = "=0.97.0"
nix = { version = "=0.29.0", features = ["signal"] }
parking_lot = "0.12"
regex = "=1.13.1"
reqwest = { version = "0.12", default-features = false }
serde = { version = "1", features = ["derive"] }
serde_json = "=1.0.154"
sha2 = "=0.10.9"
thiserror = "2"
tokio = { version = "1", features = ["fs", "io-util", "macros", "process", "rt-multi-thread", "sync", "time"] }
unicode-normalization = "=0.1.26"
url = "=2.5.8"
uuid = { version = "=1.29.0", features = ["v4", "v7"] }
walkdir = "2"
