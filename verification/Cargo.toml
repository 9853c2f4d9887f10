[package]
name = "cs_bindgen"
version = "0.1.0"
edition = "2021"
publish = false

[dependencies]
heck = "=0.3.3"
proc-macro2 = "=1.0.107"
quote = "=1.0.47"
syn = { version = "=1.0.109", features = ["full"] }
serde = { version = "=1.0.229", features = ["derive"] }
serde_json = "=1.0.154"
structopt = "=0.3.26"
wasmtime = "=36.0.19"
