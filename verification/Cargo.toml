[package]
name = "hid_touchpad"
version = "0.1.0"
edition = "2021"
publish = false

[dependencies]
axum = "*"
log = "*"
num = "*"
serde = { version = "*", features = ["derive"] }
tokio = { version = "*", features = ["rt-multi-thread", "macros", "net"] }
tower-http = { version = "*", features = ["fs"] }
tracing-subscriber = "*"
usbip = "*"
