[package]
name = "faderpunk"
version = "0.1.0"
edition = "2021"
publish = false

[dependencies]
libfp = "0.10.6"
midly = { version = "0.5.3", default-features = false }
heapless = { version = "0.9.3", features = ["serde"] }
serde = { version = "1", default-features = false, features = ["derive"] }
postcard = { version = "1.1.3", default-features = false, features = ["heapless"] }
