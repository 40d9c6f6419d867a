[package]
name = "dam_channels"
version = "0.1.0"
edition = "2021"
publish = false

[dependencies]
crossbeam = "0.8"
serde = { version = "1", features = ["derive"] }
mongodb = { version = "2", default-features = false, features = ["sync"] }
derive_more = "0.99"
