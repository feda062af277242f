[package]
name = "simple_chess"
version = "0.1.0"
edition = "2021"
publish = false

[dependencies]
shakmaty = "=0.30.0"
leptos = { version = "=0.7.8", features = ["csr"] }
gloo-timers = { version = "=0.3.0", features = ["futures"] }
gloo-net = "=0.6.0"
gloo-storage = "=0.3.0"
js-sys = "=0.3.107"
serde = { version = "=1.0.229", features = ["derive"] }
serde_json = "=1.0.154"
