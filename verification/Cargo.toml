[package]
name = "owlib"
version = "0.1.0"
edition = "2021"
publish = false

[dependencies]
axum = "0.6"
clap = { version = "4", features = ["derive"] }
gloo-storage = "0.2"
http-api-problem = { version = "0.57", features = ["axum"] }
human-panic = "1"
serde = { version = "1", features = ["derive"] }
serde_json = "1"
tokio = { version = "1", features = ["macros", "rt-multi-thread", "signal"] }
wasm-bindgen = "0.2"
web-sys = { version = "0.3", features = ["Event", "EventTarget", "HtmlInputElement"] }
yew = { version = "0.20", features = ["csr"] }
