[package]
name = "rollup_driver"
version = "0.1.0"
edition = "2021"
publish = false

[dependencies]
json = "0.12"
hyper = { version = "0.14", features = ["client", "http1", "tcp"] }
tokio = { version = "1", features = ["macros", "rt-multi-thread"] }

[dev-dependencies]
hex = "0.4"
