[package]
name = "spotui"
version = "0.1.0"
edition = "2021"
publish = false

[dependencies]
ratatui = "0.30.0"
crossterm = { version = "0.29", features = ["event-stream"] }
tokio = { version = "1", features = ["full"] }
tokio-stream = "0.1"
rspotify = { version = "0.15", default-features = false, features = ["client-reqwest", "reqwest-rustls-tls", "cli", "env-file"] }
color-eyre = "0.6"
directories = "6"
async-trait = "0.1"
tracing = "0.1"
strum = "*"
strum_macros = "*"
itertools = "*"
