[package]
name = "motioncore"
version = "0.1.0"
edition = "2021"
publish = false

[dependencies]
uuid = { version = "*", features = ["v4"] }
rand = "*"
chrono = "*"
num_cpus = "*"
image = "*"
serde = { version = "*", features = ["derive"] }
serde_json = "*"
