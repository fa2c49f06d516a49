[package]
name = "browsercookie"
version = "0.1.0"
edition = "2021"
publish = false

[dependencies]
byteorder = "1"
clap = "2"
cookie = "0.18"
dirs = "*"
futures = "0.3"
lz4 = "1"
memmap = "0.7"
regex = "1"
rust-ini = "*"
serde_json = "1"
sqlx = { version = "0.7", default-features = false, features = ["sqlite", "runtime-tokio"] }
tokio = { version = "1", features = ["macros", "rt-multi-thread"] }
