[package]
name = "brio_lamp"
version = "0.1.0"
edition = "2021"
publish = false

[dependencies]
btleplug = "*"
tokio = { version = "*", features = ["rt", "rt-multi-thread", "macros", "time"] }
uuid = "*"
