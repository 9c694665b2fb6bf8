[package]
name = "npong"
version = "0.1.0"
edition = "2021"
publish = false

[dependencies]
rand = "0.9"
pixels = "0.15"
winit = "0.30"
actix-web = "4"
actix-ws = "0.3"
actix-rt = "2"
awc = "3"
actix-codec = "0.5"
futures-util = "0.3"
tokio = { version = "1", features = ["time", "macros", "rt"] }
serde = { version = "1", features = ["derive"] }
serde_json = "1"
