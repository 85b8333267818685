[package]
name = "heapless_sink"
version = "0.1.0"
edition = "2021"
publish = false

[dependencies]
heapless = "0.8"
postcard = { version = "1", default-features = false }
serde = { version = "1", default-features = false }
