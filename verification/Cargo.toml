[package]
name = "ratatui-reactive"
version = "0.1.0"
edition = "2021"
publish = false

[dependencies]
sycamore-reactive = "=0.9.4"
ratatui = "0.30"
crossterm = { version = "0.29", features = ["event-stream"] }
async-local-channel = "=0.11.1"
futures-lite = "=2.6.1"
async-global-executor = "=3.1.0"
async-io = "=2.6.0"
tokio = { version = "=1.54.1", features = ["rt", "time", "macros", "sync"] }
