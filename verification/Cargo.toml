[package]
name = "pw_graph"
version = "0.1.0"
edition = "2021"
publish = false

[dependencies]
serde_json = "1"
pipewire = "*"
neon = "*"
tokio = { version = "1", features = ["rt", "rt-multi-thread", "time"] }
once_cell = "1"
lazy_static = "1"
