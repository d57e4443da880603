[package]
name = "mcp_exec"
version = "0.1.0"
edition = "2021"
publish = false

[dependencies]
serde_json = "=1.0.151"
sha2 = "=0.11.0"
hex = "=0.4.3"
rand = "=0.10.3"
indexmap = "=2.14.2"
reqwest = { version = "=0.12.28", default-features = false, features = ["blocking", "rustls-tls"] }
serde = { version = "=1.0.229", features = ["derive"] }
serde_yaml_bw = "=2.5.8"
tokio = { version = "=1.53.2", features = ["rt", "rt-multi-thread", "time", "macros"] }
wasmtime = { version = "=45.0.3", default-features = false, features = ["component-model", "cranelift", "runtime", "std"] }
wasmtime-wasi = "=45.0.3"
greentic-interfaces = { version = "=1.1.1", default-features = false, features = ["runner-host-v1"] }
anyhow = "=1.0.104"
