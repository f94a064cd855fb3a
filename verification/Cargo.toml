[package]
name = "waveshareoled"
version = "0.1.0"
edition = "2021"
publish = false

[dependencies]
anyhow = "=1.0.104"
async-trait = "=0.1.92"
censor = "=0.3.0"
embedded-graphics = "=0.8.2"
futures = "=0.3.34"
rppal = "=0.22.1"
serde = { version = "=1.0.229", features = ["derive"] }
serde_json = "=1.0.154"
sh1106 = "=0.5.0"
tokio = { version = "=1.54.1", features = ["full"] }
tracing = "=0.1.44"
wasmbus-rpc = "=0.14.0"
wasmcloud-interface-httpserver = "=0.11.0"
