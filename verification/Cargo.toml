[package]
name = "todomvc"
version = "0.1.0"
edition = "2021"
publish = false

[dependencies]
axum = "0.8"
sqlx = { version = "0.8", default-features = false, features = ["sqlite", "runtime-tokio", "derive"] }
tokio = { version = "1", features = ["macros", "rt-multi-thread", "net"] }
serde = { version = "1", features = ["derive"] }
serde_json = "1"
leptos = { version = "0.8", features = ["csr"] }
gloo-net = { version = "0.6", default-features = false, features = ["http", "json"] }
wasm-bindgen = "0.2"
web-sys = { version = "0.3", features = ["Window", "Location", "KeyboardEvent"] }
