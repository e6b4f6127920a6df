[package]
name = "streak_ledger"
version = "0.1.0"
edition = "2021"
publish = false

[dependencies]
actix-cors = "0.7"
actix-web = { version = "4", default-features = false, features = ["macros"] }
chrono = { version = "0.4", default-features = false, features = ["clock"] }
dotenv = "0.15"
env_logger = { version = "0.11", default-features = false }
gloo-net = { version = "*", default-features = false, features = ["http", "json"] }
gloo-timers = "*"
log = "0.4"
serde = { version = "1", features = ["derive"] }
serde_json = "1"
soroban-sdk = "*"
wasm-bindgen-futures = "0.4"
web-sys = { version = "0.3", features = ["Document", "Element", "HtmlInputElement", "Node", "Window"] }
yew = { version = "*", features = ["csr"] }
