[package]
name = "alloc_perf_test"
version = "0.1.0"
edition = "2021"
publish = false

[dependencies]
lz4_flex = "*"
fastrand = "*"
clap = { version = "*", features = ["derive"] }
tracing = "*"
tracing-subscriber = { version = "*", features = ["env-filter"] }
async-fs = "*"
futures-lite = "*"
async-global-executor = "*"
blocking = "*"
