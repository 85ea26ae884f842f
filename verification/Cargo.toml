[package]
name = "serco"
version = "0.1.0"
edition = "2021"
publish = false

[dependencies]
syn = { version = "0.13", features = ["full", "extra-traits"] }
proc-macro2 = "0.3"
quote = "0.5"
serde = "1.0"
serde_derive = "1.0"
serde_json = "1.0"
futures = "0.1"
tokio-core = "0.1"
lazy_static = "1.0"
