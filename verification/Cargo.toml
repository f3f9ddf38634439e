[package]
name = "ces_microdata"
version = "0.1.0"
edition = "2021"
publish = false

[dependencies]
anyhow = "1"
env_logger = "*"
log = "0.4"
md5 = "*"
polars = { version = "*", default-features = false, features = ["lazy", "csv"] }
reqwest = { version = "*", default-features = false, features = ["rustls-tls"] }
tokio = { version = "1", features = ["fs", "macros", "rt-multi-thread"] }
zip = { version = "*", default-features = false, features = ["deflate"] }
