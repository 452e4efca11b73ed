[package]
name = "tramex"
version = "0.1.0"
edition = "2021"
publish = false

[dependencies]
egui = "=0.36.2"
log = "=0.4.34"
tramex-tools = { version = "=0.1.0", features = ["websocket"] }
