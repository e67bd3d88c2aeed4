[package]
name = "jatayud"
version = "0.1.0"
edition = "2021"
publish = false

[dependencies]
sha2 = "0.10"
base32 = "*"
serde_json = "*"
serde = { version = "*", features = ["derive"] }
serde_repr = "*"
base64 = "*"
rmp-serde = "*"
tokio = { version = "*", features = ["full"] }
tokio-util = { version = "*", features = ["full"] }
futures = "*"
parking_lot = "*"
num_cpus = "*"
once_cell = "*"
clap = { version = "*", features = ["derive"] }
fslock = "*"
rand = "*"

[dev-dependencies]
hex = "*"
