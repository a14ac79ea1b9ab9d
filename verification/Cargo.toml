[package]
name = "quan_chatbot"
version = "0.1.0"
edition = "2021"
publish = false

[dependencies]
actix-files = "=0.6.10"
actix-web = "=4.18.1"
actix-ws = "0.3"
cfg-if = "=1.0.5"
console_error_panic_hook = "=0.1.7"
dotenv = "=0.15.0"
env_logger = "=0.10.2"
futures = "=0.3.34"
gloo-net = { version = "=0.5.0", features = ["websocket"] }
leptos = { version = "=0.6.15", features = ["csr", "ssr"] }
leptos_actix = "=0.6.15"
leptos_meta = { version = "=0.6.15", features = ["csr", "ssr"] }
llm = "=0.1.1"
rand = "=0.8.8"
wasm-bindgen = "=0.2.129"
web-sys = { version = "=0.3.106", features = ["Location", "Window"] }
