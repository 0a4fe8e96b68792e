[package]
name = "co2mon_rs"
version = "0.1.0"
edition = "2021"
publish = false

[dependencies]
clap = { version = "*", features = ["cargo"] }
color-eyre = "*"
confy = "*"
hidapi = "*"
rand = "*"
rumqttc = "*"
serde = { version = "*", features = ["derive"] }
serde_json = "*"
tracing = "*"
tracing-subscriber = "*"
