[package]
name = "vizer_gateway"
version = "0.1.0"
edition = "2021"
publish = false

[dependencies]
bollard = "0.15"
futures-util = "0.3"
tokio = { version = "1", features = ["macros", "rt-multi-thread", "signal"] }
warp = "0.3"
