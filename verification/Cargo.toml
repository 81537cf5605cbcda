[package]
name = "scylla_bench"
version = "0.1.0"
edition = "2021"
publish = false

[dependencies]
rand = "0.8"
anyhow = "1"
tokio = { version = "1", features = ["macros", "rt-multi-thread", "time"] }
scylla = "*"
