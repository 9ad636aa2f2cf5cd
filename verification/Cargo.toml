[package]
name = "cards"
version = "0.1.0"
edition = "2021"
publish = false

[dependencies]
async-trait = "0.1"
bincode = "1.3"
chrono = "0.4"
colorful = "0.2"
rand = "0.8"
rlua = "0.19"
serde = { version = "1", features = ["derive"] }
smol = "2"
tracing = "0.1"
uuid = { version = "1", features = ["v4"] }
