[package]
name = "shema"
version = "0.1.0"
edition = "2021"
publish = false

[dependencies]
proc-macro2 = "1"
quote = "1"
serde_json = "1"
syn = { version = "2", features = ["extra-traits"] }

[dev-dependencies]
serde = "1"
