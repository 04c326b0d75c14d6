[package]
name = "conduit"
version = "0.1.0"
edition = "2021"
publish = false

[dependencies]
actix = "0.13"
actix-cors = "0.6"
actix-identity = "0.4"
actix-web = "4"
argonautica = "0.2"
chrono = { version = "=0.4.45", features = ["serde"] }
diesel = { version = "=1.4.8", features = ["sqlite", "r2d2", "chrono"] }
dotenv = "=0.15.0"
futures = "=0.1.31"
lazy_static = "=1.5.1"
r2d2 = "=0.8.10"
serde = { version = "=1.0.229", features = ["derive"] }
serde_derive = "=1.0.229"
serde_json = "=1.0.154"
uuid = { version = "=1.29.0", features = ["serde", "v4"] }
