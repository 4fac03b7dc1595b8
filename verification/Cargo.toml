[package]
name = "mixpanel_component"
version = "0.1.0"
edition = "2021"
publish = false

[dependencies]
base64 = "0.22"
regex = "1"
serde_json = "1"
wit-bindgen = "*"

[dev-dependencies]
uuid = { version = "1", features = ["v4"] }
