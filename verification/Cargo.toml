[package]
name = "subspace_node"
version = "0.1.0"
edition = "2021"
publish = false

[dependencies]
sp-core = { version = "=43.0.0", default-features = false, features = ["serde"] }
futures = "=0.3.34"
thiserror = "=1.0.69"
dirs = "=4.0.0"
tracing = "=0.1.44"
