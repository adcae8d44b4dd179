[package]
name = "vox"
version = "0.1.0"
edition = "2021"
publish = false

[dependencies]
sha2 = "0.10"
serde = { version = "1", features = ["derive"] }
serde_json = "1"
thiserror = "2"
anyhow = "1"
clap = { version = "4", features = ["derive"] }
tokio = { version = "1", features = ["rt-multi-thread", "macros", "fs", "io-util", "time"] }
reqwest = { version = "0.12", default-features = false, features = ["json", "stream"] }
dirs = "*"
toml = "*"
tokio-stream = "0.1"
futures-util = "0.3"
indicatif = "*"
