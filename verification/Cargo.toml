[package]
name = "rwm"
version = "0.1.0"
edition = "2021"
publish = false

[dependencies]
futures = "0.3"
log = "0.4"
simple_logger = "1"
tokio = { version = "1", features = ["macros", "rt-multi-thread"] }
xcb = "0.9"
xcb-util = { version = "0.3", features = ["ewmh", "keysyms"] }
