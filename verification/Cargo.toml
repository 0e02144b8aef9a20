[package]
name = "motion"
version = "0.1.0"
edition = "2021"
publish = false

[dependencies]
dioxus-hooks = "*"
dioxus-signals = "*"
easer = "*"
futures-channel = "*"
futures-timer = "*"
futures-util = "*"
instant = "*"
tokio = { version = "*", features = ["time"] }
uuid = { version = "*", features = ["v4"] }
wasm-bindgen = "*"
web-sys = { version = "*", features = ["Window"] }
