[package]
name = "rs_algo_shared"
version = "0.1.0"
edition = "2021"
publish = false

[dependencies]
chrono = "0.4"
serde = { version = "1", features = ["derive"] }
serde_json = "1"
round = "0.1"
ta = { version = "0.5", features = ["serde"] }
regex = "1"
bson = { version = "2", features = ["chrono-0_4"] }
log = "0.4"
thiserror = "1"
anyhow = "1"
