[package]
name = "ledstrip"
version = "0.1.0"
edition = "2021"
publish = false

[dependencies]
rand = "*"
clap = { version = "*", features = ["derive"] }
colog = "*"
log = "*"
rumqttc = "*"
serde = { version = "*", features = ["derive"] }
toml = "*"
rs_ws281x = "*"
