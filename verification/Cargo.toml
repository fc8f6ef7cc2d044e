[package]
name = "dock_core"
version = "0.1.0"
edition = "2021"
publish = false

[dependencies]
open = "*"
serde_json = "*"
tokio = { version = "*", features = ["rt-multi-thread", "sync", "macros"] }
