[package]
name = "checkmate"
version = "0.1.0"
edition = "2021"
publish = false

[dependencies]
anyhow = "1"
clap = { version = "4", features = ["derive"] }
crossterm = "0.25"
openssh = { version = "0.9", features = ["native-mux"] }
schemars = "0.8"
serde = { version = "1", features = ["derive"] }
serde_dhall = { version = "0.12", default-features = false }
serde_json = "1"
tokio = { version = "1", features = ["rt-multi-thread", "io-util", "macros"] }
tui = "0.19"
