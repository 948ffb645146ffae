[package]
name = "plasma_keepawaked"
version = "0.1.0"
edition = "2021"
publish = false

[dependencies]
notify = "*"
rhai = { version = "1", features = ["sync"] }
serde = { version = "1", features = ["derive"] }
serde_json = "1"
zbus = "5"
