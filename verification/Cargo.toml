[package]
name = "http_executor"
version = "0.1.0"
edition = "2021"
publish = false

[dependencies]
libafl = "0.14"
libafl_bolts = "0.14"
reqwest = { version = "0.12", default-features = false, features = ["blocking"] }
serde = { version = "1", features = ["derive"] }

[dev-dependencies]
http = "1"
