[package]
name = "mplayer_client"
version = "0.1.0"
edition = "2021"
publish = false

[dependencies]
rand = "=0.8.8"
crossterm = "=0.28.1"
ratatui = "=0.29.0"
zbus = "=4.4.0"
zvariant = "=4.2.0"
serde = { version = "=1.0.229", features = ["derive"] }
basic-toml = "=0.1.10"
async-std = { version = "=1.13.2", features = ["attributes"] }
lofty = "=0.21.1"
audiotags = "=0.5.0"
