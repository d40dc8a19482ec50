[package]
name = "webdriver_bidi"
version = "0.1.0"
edition = "2021"
publish = false

[dependencies]
serde_json = "1"
serde = { version = "1", features = ["derive"] }
schemars = "*"
ciborium = "*"
base64 = "*"
futures-util = "*"
tokio = { version = "1", features = ["rt", "net", "time"] }
tokio-tungstenite = "*"
act-sdk = "*"
