[package]
name = "pg_exec"
version = "0.1.0"
edition = "2021"
publish = false

[dependencies]
postgres-protocol = "*"
postgres-types = "*"
bytes = "*"
bumpalo = { version = "*", features = ["collections"] }
fallible-iterator = "0.2"
futures-channel = "*"
futures-util = "*"
parking_lot = "*"
pin-project-lite = "*"
