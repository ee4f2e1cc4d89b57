[package]
name = "pod_roster"
version = "0.1.0"
edition = "2021"
publish = false

[dependencies]
chrono = "0.4"
dir_spec = "*"
interprocess = "2"
open = "5"
serde_json = "1"
sha2 = "0.10"
tokio = { version = "1", features = ["time", "rt"] }
