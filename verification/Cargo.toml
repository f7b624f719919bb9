[package]
name = "pds"
version = "0.1.0"
edition = "2021"
publish = false

[dependencies]
rand_core = { version = "0.6", features = ["getrandom"] }
base64 = "0.22"
uuid = { version = "1", features = ["v4"] }
serde = { version = "1", features = ["derive"] }
serde_json = "1"
chrono = "0.4"
jsonwebtoken = "9"
ipld-core = "0.4"
serde_ipld_dagcbor = "0.6"
