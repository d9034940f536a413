[package]
name = "rooms"
version = "0.1.0"
edition = "2021"
publish = false

[dependencies]
actix = "=0.13.5"
actix-web = { version = "=4.18.1", default-features = false, features = ["macros", "ws"] }
actix-web-actors = "=4.3.1"
async-lock = "=3.4.2"
dotenv = "=0.15.0"
mediasoup = "=0.32.0"
parking_lot = "=0.12.5"
redis = "=1.8.0"
serde = { version = "=1.0.229", features = ["derive"] }
serde_json = "=1.0.154"
tracing = "=0.1.44"
tracing-subscriber = "=0.3.23"
uuid = { version = "=1.29.0", features = ["v4", "serde"] }
