[package]
name = "joda_rs"
version = "0.1.0"
edition = "2021"
publish = false

[dependencies]
time = { version = "0.3", features = ["formatting", "parsing", "local-offset", "serde"] }
time-tz = { version = "*", features = ["system"] }
rust_decimal = "1"
serde = { version = "1", features = ["derive"] }
