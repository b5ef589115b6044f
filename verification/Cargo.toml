[package]
name = "block_detector"
version = "0.1.0"
edition = "2021"
publish = false

[dependencies]
gpio-cdev = { version = "0.6.0", features = ["async-tokio"] }
futures = "0.3"
tokio = { version = "1", features = ["macros", "rt-multi-thread", "time"] }
safe_drive = "0.4"
