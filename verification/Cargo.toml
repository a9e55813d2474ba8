[package]
name = "databook"
version = "0.1.0"
edition = "2021"
publish = false

[dependencies]
url = "=2.5.8"
toml = "=1.1.8"
hyper = { version = "=1.12.0", features = ["server", "http1"] }
hyper-util = { version = "=0.1.21", features = ["tokio"] }
http-body-util = "=0.1.5"
serde = { version = "=1.0.229", features = ["derive"] }
serde_json = "=1.0.154"
clap = { version = "=4.6.7", features = ["derive"] }
tracing = "=0.1.44"
tracing-subscriber = "=0.3.23"
once_cell = "=1.21.4"
anyhow = "=1.0.104"
tokio = { version = "=1.54.1", features = ["rt-multi-thread", "net"] }
reqwest = { version = "=0.13.5", default-features = false, features = ["blocking"] }
wasmtime = { version = "=36.0.19", default-features = false, features = ["component-model", "cranelift", "runtime"] }
