[package]
name = "game_loop"
version = "0.1.0"
edition = "2021"
publish = false

[dependencies]
flume = "0.10"
futures = "0.3"
pollster = "0.3"
rand = "0.8"
spin_sleep = "~1.1"
tokio = { version = "1", features = ["rt-multi-thread", "sync", "macros"] }
winit = "0.28"
