[package]
name = "lodestone_core"
version = "0.1.0"
edition = "2021"
publish = false

[dependencies]
regex = "=1.13.1"
fancy-regex = "=0.11.0"
argon2 = "=0.5.3"
rand_core = { version = "=0.6.4", features = ["getrandom"] }
jsonwebtoken = "=8.3.0"
uuid = { version = "=1.29.1", features = ["v4"] }
chrono = "=0.4.45"
serde = { version = "=1.0.229", features = ["derive"] }
serde_json = "=1.0.154"
tokio = { version = "=1.54.1", features = ["sync", "fs", "io-util", "rt", "macros"] }
whoami = "=1.6.1"
sanitize-filename = "=0.5.0"
url = "2"
