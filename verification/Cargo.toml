[package]
name = "joid"
version = "0.1.0"
edition = "2021"
publish = false

[dependencies]
xcb = { version = "=0.9.0", features = ["thread"] }
xcb-util = { version = "=0.3.0", features = ["ewmh", "cursor", "thread"] }
tokio = { version = "=1.54.1", features = ["rt-multi-thread", "macros"] }
