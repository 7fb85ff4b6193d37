[package]
name = "tetra_analysis"
version = "0.1.0"
edition = "2021"
publish = false

[dependencies]
libc = "=0.2.190"
serde = { version = "=1.0.229", features = ["derive"] }
serde_json = "=1.0.151"
serde_repr = "=0.1.21"
