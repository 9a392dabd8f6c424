[package]
name = "xyron_core"
version = "0.1.0"
edition = "2021"
publish = false

[dependencies]
blake2 = "*"
blake3 = "*"
chrono = "*"
env_logger = "*"
groestl = "*"
keccak-hash = "*"
log = "*"
rand = "*"
ripemd = "*"
serde = { version = "*", features = ["derive"] }
serde_json = "*"
sha2 = "*"
sha3 = "*"
sm3 = "*"
streebog = "*"
tokio = { version = "*", features = ["rt", "time"] }
uuid = { version = "*", features = ["v4"] }
whirlpool = "*"

[dev-dependencies]
hex = "*"
