[package]
name = "checkin_ops"
version = "0.1.0"
edition = "2021"
publish = false

[dependencies]
deno_core = "*"
deno_error = "*"
tokio = { version = "*", features = ["time", "rt"] }
