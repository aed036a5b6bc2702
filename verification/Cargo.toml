[package]
name = "forge_lib"
version = "0.1.0"
edition = "2021"
publish = false

[dependencies]
ansi_term = "0.12"
anyhow = "1"
clap = { version = "4", features = ["derive"] }
clap_builder = "4"
inquire = "0.7"
serde = { version = "1", features = ["derive"] }
serde_json = "1"
strum = "0.27"
strum_macros = "0.27"
thiserror = "2"
toml = "0.8"
which = "7"
