[package]
name = "linked_call"
version = "0.1.0"
edition = "2021"
publish = false

[dependencies]
anyhow = "=1.0.104"
tokio = { version = "=1.52.4", features = ["rt", "rt-multi-thread", "sync", "time"] }
tracing = "=0.1.44"
uuid = { version = "=1.23.5", features = ["v4"] }
wasmtime = { version = "=48.0.8", default-features = false, features = ["async", "component-model", "component-model-async", "cranelift", "runtime", "std", "wat"] }
wasmtime-wasi = { version = "=48.0.8", default-features = false, features = ["p2"] }
