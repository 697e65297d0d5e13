[package]
name = "valog"
version = "0.1.0"
edition = "2021"
publish = false

[dependencies]
dbutils = { version = "=0.17.0", features = ["crc32"] }
rarena-allocator = "=0.6.0"
