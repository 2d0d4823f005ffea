[package]
name = "main_dispatch"
version = "0.1.0"
edition = "2021"
publish = false

[dependencies]
cocoa = "0.24"
lazy_static = "1.4"
objc = "0.2.7"
tracing = { version = "0.1", default-features = false }
