[package]
name = "hibouair"
version = "0.1.0"
edition = "2021"
publish = false

[dependencies]
hex = "=0.4.3"
serde_json = "=1.0.154"
chrono = "=0.4.45"
tokio = { version = "1", features = ["io-util", "time", "macros", "rt"] }
serial2-tokio = "=0.1.25"
futures-channel = "0.3"
futures-util = "0.3"
dioxus = "0.6"
macos-app-nap = "=0.0.1"
