[package]
name = "hc_homie5"
version = "0.1.0"
edition = "2021"
publish = false

[dependencies]
homie5 = "*"
regex = "*"
rumqttc = "*"
tokio = { version = "*", features = ["rt-multi-thread", "sync", "time", "macros"] }
log = "*"
serde = { version = "*", features = ["derive"] }
thiserror = "*"
chrono = "*"
rand = "*"
