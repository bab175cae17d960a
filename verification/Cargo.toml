[package]
name = "kv_value"
version = "0.1.0"
edition = "2021"
publish = false

[dependencies]
sval = { version = "0.4.2", features = ["std", "fmt", "test"] }
