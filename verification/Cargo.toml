[package]
name = "lint-lang"
version = "0.1.0"
edition = "2021"
publish = false

[dependencies]
anyhow = "1"
arboard = { version = "3", default-features = false }
clap = { version = "4", features = ["derive"] }
crossterm = "0.28"
directories = "6"
encoding_rs = "0.8"
llama-cpp-2 = "*"
ratatui = "0.29"
reqwest = { version = "0.12", default-features = false, features = ["json", "rustls-tls"] }
serde = { version = "1", features = ["derive"] }
tokio = { version = "1", features = ["full"] }
toml = "0.8"
