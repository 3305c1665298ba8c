[package]
name = "bincache"
version = "0.1.0"
edition = "2021"
publish = false

[dependencies]
async-compression = { version = "0.4", features = ["futures-io", "zstd", "gzip", "brotli"] }
futures-util = { version = "0.3", features = ["io"] }
thiserror = "1"
uuid = { version = "1", features = ["v4"] }
