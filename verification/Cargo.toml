[package]
name = "astroport-maker"
version = "0.1.0"
edition = "2021"
publish = false

[dependencies]
astroport = "=1.0.1"
cosmwasm-std = "0.16.7"
cw20 = "0.8.1"
cw-storage-plus = "0.8.1"
serde = { version = "1", features = ["derive"] }
