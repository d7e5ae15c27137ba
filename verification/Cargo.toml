[package]
name = "simple_doip"
version = "0.1.0"
edition = "2021"
publish = false

[dependencies]
automotive-wire-codec = "=0.3.0"
embedded-io = { version = "=0.7.1", features = ["alloc"] }
tokio = { version = "=1.54.1", features = ["full"] }
tokio-util = { version = "=0.7.20", features = ["codec"] }
bytes = "=1.12.1"
futures = "=0.3.34"
async-trait = "=0.1.92"
thiserror = "=2.0.21"
tracing = "=0.1.44"
strum = { version = "=0.27.2", features = ["derive"] }
