[package]
name = "stores_lib"
version = "0.1.0"
edition = "2021"
publish = false

[dependencies]
validator = "=0.21.0"
serde_json = "=1.0.154"
serde = { version = "=1.0.229", features = ["derive"] }
config = "=0.15.27"
diesel = { version = "=2.3.14", features = ["postgres", "r2d2", "serde_json"] }
r2d2 = "=0.8.10"
futures = "=0.1.31"
futures-cpupool = "=0.1.8"
failure = "=0.1.8"
hyper = "=1.12.0"
uuid = { version = "=1.29.0", features = ["v4", "serde"] }
