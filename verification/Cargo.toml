[package]
name = "apexcharts-rs"
version = "0.1.0"
edition = "2021"
publish = false

[dependencies]
serde = { version = "1", features = ["derive"] }
serde_json = { version = "1", features = ["preserve_order"] }
serde-wasm-bindgen = "0.6"
wasm-bindgen = "0.2"
wasm-bindgen-futures = "0.4"
gloo = { version = "0.11", default-features = false, features = ["timers"] }
yew = "0.21"
leptos = "0.7"
