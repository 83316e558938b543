[package]
name = "stepper_motor"
version = "0.1.0"
edition = "2021"
publish = false

[dependencies]
gpio-cdev = { version = "*", features = ["async-tokio"] }
tokio = { version = "*", features = ["sync", "time", "rt", "rt-multi-thread", "macros"] }
futures = "*"
prost = "*"
prost-types = "*"
serde = { version = "*", features = ["derive"] }
