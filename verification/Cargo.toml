[package]
name = "evo_pro"
version = "0.1.0"
edition = "2021"
publish = false

[dependencies]
uuid = { version = "1", features = ["v4"] }
chrono = "0.4"
md5 = "0.7"
bincode = "1"
serde = { version = "1", features = ["derive"] }
serde_json = "1"
sysinfo = "0.29"
lazy_static = "1"
